use vstd::prelude::*;

use crate::types::{MastodonServer, RelayError};

verus! {

/// How long the listener waits before it opens a source stream again.
pub const RECONNECT_BACKOFF_MS: u64 = 500;

/// Why a source stream failed.
#[derive(Debug, Clone, Copy, PartialEq, Eq, Structural)]
pub enum Fault {
    Transport,
    Malformed,
    Timeout,
    /// The source refused the credentials: retrying alone will not mend it.
    Rejected,
}

/// What a source stream did.
#[derive(Debug, Clone, Copy, PartialEq, Eq, Structural)]
pub enum StreamEvent {
    Item,
    Ended,
    Failed(Fault),
}

/// What the listener does next.
#[derive(Debug, Clone, Copy, PartialEq, Eq, Structural)]
pub enum StreamAction {
    /// Hand the item to every subscriber.
    Forward,
    /// Wait `delay_ms`, then open the stream again; `report` asks for the
    /// fault to be raised to the operator first.
    Reconnect { delay_ms: u64, report: bool },
}

/// Whether a fault persists until someone acts on it.
pub open spec fn persistent(f: Fault) -> bool {
    f == Fault::Rejected
}

/// The listener's policy: forward items, and on the end or failure of the
/// stream wait a fixed backoff and reconnect, for ever. Only a persistent
/// fault is raised to the operator.
pub fn on_stream_event(event: StreamEvent) -> (r: StreamAction)
    ensures
        event is Item ==> r == StreamAction::Forward,
        event is Ended ==> r == (StreamAction::Reconnect { delay_ms: RECONNECT_BACKOFF_MS, report: false }),
        event is Failed ==> r == (StreamAction::Reconnect {
            delay_ms: RECONNECT_BACKOFF_MS,
            report: persistent(event->Failed_0),
        }),
{
    match event {
        StreamEvent::Item => StreamAction::Forward,
        StreamEvent::Ended => StreamAction::Reconnect { delay_ms: RECONNECT_BACKOFF_MS, report: false },
        StreamEvent::Failed(f) => StreamAction::Reconnect {
            delay_ms: RECONNECT_BACKOFF_MS,
            report: f == Fault::Rejected,
        },
    }
}

/// A relay needs at least one source server.
pub fn check_sources(servers: &Vec<MastodonServer>) -> (r: Result<(), RelayError>)
    ensures
        servers@.len() == 0 <==> r == Err::<(), RelayError>(RelayError::NoSources),
        servers@.len() > 0 <==> r is Ok,
{
    if servers.len() == 0 {
        Err(RelayError::NoSources)
    } else {
        Ok(())
    }
}

} // verus!
