//! The event coordinator: the single consumer that turns queued events into
//! console parameter writes and keeps exactly one volume subscription bound
//! to the current default output device.
//!
//! The OS-facing work (querying the default device, registering callbacks)
//! and the console RPC itself happen outside this library; here stand the
//! decisions. Volume subscriptions, like console connections, carry
//! generation numbers, so that contracts can say that after a rebind the
//! active subscription is the one the rebind established, never a stale one.

use vstd::prelude::*;
use crate::mapping::{VolumeSample, spec_gain, spec_mute};

verus! {

/// One event drained from the shared queue.
#[derive(Clone, Copy, Debug, PartialEq, Eq, Structural)]
pub enum Event {
    VolumeChanged { sample: VolumeSample },
    DefaultDeviceChanged,
}

/// The two strip parameters this program writes.
#[derive(Clone, Copy, Debug, PartialEq, Eq, Structural)]
pub enum Param {
    StripMute,
    StripGain,
}

/// One console operation, in the order the coordinator issues them.
#[derive(Clone, Copy, Debug, PartialEq, Eq, Structural)]
pub enum Command {
    SetFloat { param: Param, value: i32 },
    Commit,
}

/// The console parameter name a `Param` addresses.
pub fn param_name(p: Param) -> (r: &'static str)
    ensures
        p == Param::StripMute ==> r@ == "Strip[3].Mute"@,
        p == Param::StripGain ==> r@ == "Strip[3].Gain"@,
{
    match p {
        Param::StripMute => "Strip[3].Mute",
        Param::StripGain => "Strip[3].Gain",
    }
}

/// The plan for one volume sample: write the mute flag, write the gain,
/// commit — in that order, always all three.
pub open spec fn spec_apply_plan(s: VolumeSample) -> Seq<Command> {
    seq![
        (Command::SetFloat { param: Param::StripMute, value: spec_mute(s.level, s.muted) as i32 }),
        (Command::SetFloat { param: Param::StripGain, value: spec_gain(s.level) as i32 }),
        Command::Commit,
    ]
}

/// Compute the console operations for one volume sample.
pub fn apply_plan(sample: &VolumeSample) -> (cmds: Vec<Command>)
    requires
        sample.wf(),
    ensures
        cmds@ == spec_apply_plan(*sample),
{
    let t = crate::mapping::map(sample);
    let mut cmds: Vec<Command> = Vec::new();
    cmds.push(Command::SetFloat { param: Param::StripMute, value: t.mute });
    cmds.push(Command::SetFloat { param: Param::StripGain, value: t.gain });
    cmds.push(Command::Commit);
    proof {
        assert(cmds@ =~= spec_apply_plan(*sample));
    }
    cmds
}

/// The coordinator's persistent state: the generation of the active volume
/// subscription, if any, and the number of subscriptions ever established,
/// which is also the source of fresh generation numbers.
pub struct Coordinator {
    pub subscription: Option<u64>,
    pub subs_created: u64,
}

impl Coordinator {
    /// Every generation held by the subscription was minted earlier.
    pub open spec fn wf(self) -> bool {
        match self.subscription {
            Some(g) => g < self.subs_created,
            None => true,
        }
    }

    /// A coordinator before its first rebind: no volume subscription yet.
    pub fn new() -> (c: Coordinator)
        ensures
            c.wf(),
            c.subscription is None,
            c.subs_created == 0,
    {
        Coordinator { subscription: None, subs_created: 0 }
    }

    /// Handle a volume event: the plan for the sample is issued and the
    /// subscription state is untouched, whatever became of earlier writes.
    pub fn on_volume_changed(&self, sample: &VolumeSample) -> (cmds: Vec<Command>)
        requires
            sample.wf(),
        ensures
            cmds@ == spec_apply_plan(*sample),
    {
        apply_plan(sample)
    }

    /// Drop the active volume subscription: a rebind found no default
    /// device, or failed to register against it. The next device-change
    /// event will retry.
    pub fn drop_subscription(&mut self)
        ensures
            final(self).subscription is None,
            final(self).subs_created == old(self).subs_created,
            final(self).wf(),
    {
        self.subscription = None;
    }

    /// Record that a rebind registered a volume subscription against the
    /// current default device. Returns the fresh generation of that
    /// subscription, which replaces (and thereby releases) any earlier one.
    pub fn install_subscription(&mut self) -> (g: u64)
        requires
            old(self).subs_created < u64::MAX,
        ensures
            final(self).wf(),
            g == old(self).subs_created,
            final(self).subscription == Some(g),
            final(self).subs_created == old(self).subs_created + 1,
            (match old(self).subscription {
                Some(h) => old(self).wf() ==> h < g,
                None => true,
            }),
    {
        let g = self.subs_created;
        self.subscription = Some(g);
        self.subs_created = self.subs_created + 1;
        g
    }

    /// One step of the coordinator loop: dispatch one event, given the
    /// outcomes of the rebind's OS calls, and return the console operations
    /// to issue, exactly as `spec_step` says.
    pub fn step(
        &mut self,
        e: &Event,
        device_ok: bool,
        volume: &Option<VolumeSample>,
        register_ok: bool,
    ) -> (cmds: Vec<Command>)
        requires
            old(self).subs_created < u64::MAX,
            (*e matches Event::VolumeChanged { sample } ==> sample.wf()),
            (*volume matches Some(s) ==> s.wf()),
        ensures
            *final(self) == spec_step(*old(self), *e, device_ok, *volume, register_ok).0,
            cmds@ == spec_step(*old(self), *e, device_ok, *volume, register_ok).1,
            old(self).wf() ==> final(self).wf(),
    {
        match e {
            Event::VolumeChanged { sample } => self.on_volume_changed(sample),
            Event::DefaultDeviceChanged => {
                if !device_ok {
                    self.drop_subscription();
                    Vec::new()
                } else {
                    let cmds = match volume {
                        Some(s) => apply_plan(s),
                        None => Vec::new(),
                    };
                    if register_ok {
                        let _ = self.install_subscription();
                    } else {
                        self.drop_subscription();
                    }
                    cmds
                }
            },
        }
    }
}

/// Everything that can go wrong in the worker, by where it failed.
#[derive(Clone, Copy, Debug, PartialEq, Eq, Structural)]
pub enum WorkerError {
    /// The console could not be reached, not even by a reconnect.
    ConnectionError,
    /// A get, set or commit failed on a live console connection.
    ParameterError,
    /// The OS query for the default device failed.
    EnumerationError,
    /// Registering an OS notification callback failed.
    SubscriptionError,
    /// The internal event queue broke: both adapters' send handles are gone.
    ChannelDisconnected,
}

/// The worker's propagation policy: a broken event queue is fatal and ends
/// the worker (the supervisor relaunches it); every other failure is logged
/// and recovered locally — a failed write drops the current event, a failed
/// rebind heals on the next device change. (A failure to obtain the device
/// enumerator in the first place ends the worker before this loop starts.)
pub fn is_fatal(e: WorkerError) -> (r: bool)
    ensures
        r <==> e == WorkerError::ChannelDisconnected,
{
    match e {
        WorkerError::ChannelDisconnected => true,
        _ => false,
    }
}

/// One step of the coordinator loop, as a function of the state, the event,
/// and the outcomes of the rebind's OS calls: whether the default device
/// could be queried, its current volume if it could be read, and whether
/// registering the volume callback succeeded. Yields the state after the
/// step and the console operations it issues. Whether those operations then
/// succeed on the console is no input: a failed write is logged and the loop
/// goes on unchanged.
pub open spec fn spec_step(
    c: Coordinator,
    e: Event,
    device_ok: bool,
    volume: Option<VolumeSample>,
    register_ok: bool,
) -> (Coordinator, Seq<Command>) {
    match e {
        Event::VolumeChanged { sample } => (c, spec_apply_plan(sample)),
        Event::DefaultDeviceChanged => {
            if !device_ok {
                (Coordinator { subscription: None, ..c }, Seq::empty())
            } else {
                let cmds = match volume {
                    Some(s) => spec_apply_plan(s),
                    None => Seq::empty(),
                };
                if register_ok {
                    (
                        Coordinator {
                            subscription: Some(c.subs_created),
                            subs_created: (c.subs_created + 1) as u64,
                        },
                        cmds,
                    )
                } else {
                    (Coordinator { subscription: None, ..c }, cmds)
                }
            }
        },
    }
}

/// After a device-change event whose rebind established a subscription, a
/// following volume event is applied under exactly that subscription: the
/// rebind mints a strictly newer generation than any held before, and the
/// volume event leaves it active and untouched.
pub proof fn lemma_volume_follows_latest_rebind(
    c: Coordinator,
    vol_at_rebind: Option<VolumeSample>,
    s: VolumeSample,
    device_ok2: bool,
    volume2: Option<VolumeSample>,
    register_ok2: bool,
)
    requires
        c.wf(),
        c.subs_created < u64::MAX,
    ensures
        ({
            let (c1, _) = spec_step(c, Event::DefaultDeviceChanged, true, vol_at_rebind, true);
            let (c2, cmds) = spec_step(
                c1,
                Event::VolumeChanged { sample: s },
                device_ok2,
                volume2,
                register_ok2,
            );
            &&& c1.subscription == Some(c.subs_created)
            &&& (c.subscription matches Some(h) ==> h < c.subs_created)
            &&& c2 == c1
            &&& c2.subscription == Some(c.subs_created)
            &&& cmds == spec_apply_plan(s)
        }),
{
}

/// Applying a volume event never changes the coordinator's state, whatever
/// became of the console writes: a failed apply is logged and the next event
/// is processed from the same state.
pub proof fn lemma_apply_outcome_is_isolated(
    c: Coordinator,
    s: VolumeSample,
    device_ok: bool,
    volume: Option<VolumeSample>,
    register_ok: bool,
)
    ensures
        spec_step(c, Event::VolumeChanged { sample: s }, device_ok, volume, register_ok).0 == c,
        c.wf() ==> spec_step(
            c,
            Event::VolumeChanged { sample: s },
            device_ok,
            volume,
            register_ok,
        ).0.wf(),
{
}

} // verus!
