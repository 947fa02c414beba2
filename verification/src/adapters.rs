//! The notification adapters: the translation the OS-invoked callbacks
//! perform. Each adapter holds a send handle of the shared queue and does
//! nothing but post a message; the device-change adapter in addition filters
//! for the one role this program follows. The OS-specific callback objects
//! live in the binary around this library and call straight into these
//! functions.

use vstd::prelude::*;
use crate::coordinator::Event;
use crate::mapping::VolumeSample;
use crate::queue::{EventQueue, queue_contents, queue_send};

verus! {

/// The direction of an audio endpoint, as the OS reports it on a
/// default-device change.
#[derive(Clone, Copy, Debug, PartialEq, Eq, Structural)]
pub enum DataFlow {
    Render,
    Capture,
    All,
}

/// The role of a default device, as the OS reports it.
#[derive(Clone, Copy, Debug, PartialEq, Eq, Structural)]
pub enum DeviceRole {
    Console,
    Multimedia,
    Communications,
}

/// Whether a default-device change concerns the device this program
/// mirrors: the render device in the multimedia role.
pub open spec fn spec_is_followed_default(flow: DataFlow, role: DeviceRole) -> bool {
    flow == DataFlow::Render && role == DeviceRole::Multimedia
}

/// Decide whether a default-device change concerns the followed device.
pub fn is_followed_default(flow: DataFlow, role: DeviceRole) -> (r: bool)
    ensures
        r == spec_is_followed_default(flow, role),
{
    match (flow, role) {
        (DataFlow::Render, DeviceRole::Multimedia) => true,
        _ => false,
    }
}

/// The device-change adapter: posts a device-change event exactly when the
/// changed default is the render/multimedia one; every other role or
/// direction is ignored and posts nothing.
pub fn post_default_device_changed(q: &mut EventQueue, flow: DataFlow, role: DeviceRole)
    ensures
        spec_is_followed_default(flow, role) ==> queue_contents(*final(q)) == queue_contents(
            *old(q),
        ).push(Event::DefaultDeviceChanged),
        !spec_is_followed_default(flow, role) ==> queue_contents(*final(q)) == queue_contents(
            *old(q),
        ),
{
    if is_followed_default(flow, role) {
        queue_send(q, Event::DefaultDeviceChanged);
    }
}

/// The volume-change adapter: posts every volume reading it is handed,
/// unconditionally and unchanged.
pub fn post_volume_changed(q: &mut EventQueue, sample: VolumeSample)
    ensures
        queue_contents(*final(q)) == queue_contents(*old(q)).push(
            Event::VolumeChanged { sample },
        ),
{
    queue_send(q, Event::VolumeChanged { sample });
}

} // verus!
