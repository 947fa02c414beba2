//! The console client: a single always-available logical handle to an
//! external mixing console that is physically unreliable.
//!
//! The connection itself lives outside this library; here stands the part
//! that can be wrong in interesting ways, the retry-once-with-reconnect
//! state machine. Each live connection is identified by a generation number,
//! minted fresh on every connection attempt, so that contracts can say which
//! connection a call was made on and that a rebound client never reuses a
//! stale one. The driver performs the actual operations and reports their
//! outcomes back through the methods below.

use vstd::prelude::*;

verus! {

/// The connection state: either no usable connection, or a live connection
/// identified by its generation.
#[derive(Clone, Copy, Debug, PartialEq, Eq, Structural)]
pub enum ConnState {
    Disconnected,
    Connected { generation: u64 },
}

/// The overall outcome of one client call.
#[derive(Clone, Copy, Debug, PartialEq, Eq, Structural)]
pub enum CallResult {
    /// The operation went through, on the first attempt or on the retry.
    Succeeded,
    /// A fresh connection was established but the retried operation failed.
    OpFailed,
    /// No fresh connection could be established.
    ConnectionFailed,
}

/// The client's persistent state: the current connection and the number of
/// connection attempts ever made, which is also the source of fresh
/// generation numbers.
pub struct ConsoleClient {
    pub conn: ConnState,
    pub attempts: u64,
}

impl ConsoleClient {
    /// Every generation held by the connection was minted by an earlier
    /// attempt.
    pub open spec fn wf(self) -> bool {
        match self.conn {
            ConnState::Connected { generation } => generation < self.attempts,
            ConnState::Disconnected => true,
        }
    }

    /// A client that has made one initial connection attempt, connected if
    /// that attempt succeeded.
    pub fn new(initial_connect_ok: bool) -> (c: ConsoleClient)
        ensures
            c.wf(),
            c.attempts == 1,
            initial_connect_ok ==> c.conn == (ConnState::Connected { generation: 0u64 }),
            !initial_connect_ok ==> c.conn == ConnState::Disconnected,
    {
        ConsoleClient {
            conn: if initial_connect_ok {
                ConnState::Connected { generation: 0 }
            } else {
                ConnState::Disconnected
            },
            attempts: 1,
        }
    }

    /// Which connection the first attempt of a call must use: the current
    /// one if there is one, none if the client must reconnect straight away.
    pub fn first_attempt_target(&self) -> (r: Option<u64>)
        ensures
            r == (match self.conn {
                ConnState::Connected { generation } => Some(generation),
                ConnState::Disconnected => None::<u64>,
            }),
    {
        match self.conn {
            ConnState::Connected { generation } => Some(generation),
            ConnState::Disconnected => None,
        }
    }

    /// Whether a call must move on to a reconnect: exactly when there was no
    /// connection to try, or the attempt on the existing connection failed.
    pub fn must_reconnect(&self, first_attempt: Option<bool>) -> (r: bool)
        ensures
            r == (first_attempt != Some(true)),
    {
        match first_attempt {
            Some(true) => false,
            _ => true,
        }
    }

    /// Record that the reconnect failed: the call surfaces a connection
    /// error and the client remains disconnected.
    pub fn record_connect_failure(&mut self)
        requires
            old(self).attempts < u64::MAX,
        ensures
            final(self).wf(),
            final(self).conn == ConnState::Disconnected,
            final(self).attempts == old(self).attempts + 1,
    {
        self.conn = ConnState::Disconnected;
        self.attempts = self.attempts + 1;
    }

    /// Record that the reconnect succeeded. Returns the fresh generation of
    /// the new connection, on which the driver retries the operation exactly
    /// once; the new connection stays current whatever that retry returns.
    pub fn record_connect_success(&mut self) -> (g: u64)
        requires
            old(self).attempts < u64::MAX,
        ensures
            final(self).wf(),
            g == old(self).attempts,
            final(self).conn == (ConnState::Connected { generation: g }),
            final(self).attempts == old(self).attempts + 1,
            (match old(self).conn {
                ConnState::Connected { generation } => old(self).wf() ==> generation < g,
                ConnState::Disconnected => true,
            }),
    {
        let g = self.attempts;
        self.conn = ConnState::Connected { generation: g };
        self.attempts = self.attempts + 1;
        g
    }
}

/// The whole retry-once call in one step, as a function of the client state
/// and of the outcomes the environment would return: the first attempt (only
/// consulted when a connection exists), the reconnect, and the retried
/// operation (only consulted when the reconnect succeeds). Yields the client
/// after the call, the call's result, and how many reconnects were
/// attempted.
pub open spec fn spec_retry_once(
    c: ConsoleClient,
    first_ok: bool,
    connect_ok: bool,
    retry_ok: bool,
) -> (ConsoleClient, CallResult, nat) {
    if c.conn is Connected && first_ok {
        (c, CallResult::Succeeded, 0)
    } else if !connect_ok {
        (
            ConsoleClient { conn: ConnState::Disconnected, attempts: (c.attempts + 1) as u64 },
            CallResult::ConnectionFailed,
            1,
        )
    } else {
        (
            ConsoleClient {
                conn: ConnState::Connected { generation: c.attempts },
                attempts: (c.attempts + 1) as u64,
            },
            if retry_ok {
                CallResult::Succeeded
            } else {
                CallResult::OpFailed
            },
            1,
        )
    }
}

/// A call on a connected, healthy client makes no reconnect attempt and
/// leaves the client exactly as it was.
pub proof fn lemma_healthy_call_no_reconnect(
    c: ConsoleClient,
    connect_ok: bool,
    retry_ok: bool,
)
    requires
        c.conn is Connected,
    ensures
        spec_retry_once(c, true, connect_ok, retry_ok).0 == c,
        spec_retry_once(c, true, connect_ok, retry_ok).1 == CallResult::Succeeded,
        spec_retry_once(c, true, connect_ok, retry_ok).2 == 0,
{
}

/// A call whose first attempt fails reconnects exactly once; when the
/// reconnect succeeds, the fresh connection stays current whatever the
/// retried operation returns, and the retry's outcome is the call's.
pub proof fn lemma_failed_call_reconnects_once(c: ConsoleClient, retry_ok: bool)
    requires
        c.wf(),
        c.attempts < u64::MAX,
    ensures
        spec_retry_once(c, false, true, retry_ok).2 == 1,
        spec_retry_once(c, false, true, retry_ok).0.conn == (ConnState::Connected {
            generation: c.attempts,
        }),
        spec_retry_once(c, false, true, retry_ok).0.wf(),
        spec_retry_once(c, false, true, retry_ok).1 == (if retry_ok {
            CallResult::Succeeded
        } else {
            CallResult::OpFailed
        }),
        (match c.conn {
            ConnState::Connected { generation } => generation
                < spec_retry_once(c, false, true, retry_ok).0.conn->Connected_generation,
            ConnState::Disconnected => true,
        }),
{
}

/// When the reconnect fails, the call surfaces a connection error and the
/// client is left disconnected, after exactly one reconnect attempt.
pub proof fn lemma_connect_failure_disconnects(c: ConsoleClient, first_ok: bool, retry_ok: bool)
    requires
        c.attempts < u64::MAX,
        !(c.conn is Connected && first_ok),
    ensures
        spec_retry_once(c, first_ok, false, retry_ok).0.conn == ConnState::Disconnected,
        spec_retry_once(c, first_ok, false, retry_ok).1 == CallResult::ConnectionFailed,
        spec_retry_once(c, first_ok, false, retry_ok).2 == 1,
{
}

} // verus!
