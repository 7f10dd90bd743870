//! The keepalive supervisor: a periodic no-op request detects a dead
//! session, and each successful one is followed by a refresh of the input
//! channel, retried once after a short grace period.
use vstd::prelude::*;

verus! {

/// Seconds between keepalive ticks.
pub const PERIOD_SECS: u64 = 25;

/// Seconds to wait before retrying a failed refresh.
pub const GRACE_SECS: u64 = 3;

/// What the supervisor is waiting for.
#[derive(Debug, Clone, Copy, PartialEq, Eq, Structural)]
pub enum Phase {
    /// The next tick.
    Waiting,
    /// The outcome of the keepalive request.
    Pinging,
    /// The outcome of an input-channel refresh; `retry` on the second attempt.
    Refreshing { retry: bool },
    /// The end of the grace period.
    Grace,
    /// The supervisor has ended.
    Stopped,
}

/// What happened.
#[derive(Debug, Clone, Copy, PartialEq, Eq, Structural)]
pub enum TickEvent {
    /// The period elapsed; `connected` is the session's state then.
    Tick { connected: bool },
    PingOk,
    PingFailed,
    RefreshOk,
    RefreshFailed,
    /// The grace period elapsed; `connected` is the session's state then.
    GraceElapsed { connected: bool },
}

/// What to do next.
#[derive(Debug, Clone, Copy, PartialEq, Eq, Structural)]
pub enum TickAction {
    /// Send the keepalive request.
    Ping,
    /// Refresh the input channel.
    Refresh,
    /// Sleep for the grace period, without holding the session.
    WaitGrace,
    /// Sleep until the next tick, without holding the session.
    WaitTick,
    /// Tell the user interface that the connection was lost, then end.
    NotifyLost,
    /// End.
    Exit,
    /// The event does not fit the phase; nothing changed.
    Ignore,
}

/// The supervisor's transition table.
pub open spec fn tick_next(p: Phase, e: TickEvent) -> (Phase, TickAction) {
    match (p, e) {
        (Phase::Stopped, _) => (Phase::Stopped, TickAction::Exit),
        (Phase::Waiting, TickEvent::Tick { connected }) => if connected {
            (Phase::Pinging, TickAction::Ping)
        } else {
            (Phase::Stopped, TickAction::Exit)
        },
        (Phase::Pinging, TickEvent::PingOk) => (
            Phase::Refreshing { retry: false },
            TickAction::Refresh,
        ),
        (Phase::Pinging, TickEvent::PingFailed) => (Phase::Stopped, TickAction::NotifyLost),
        (Phase::Refreshing { retry }, TickEvent::RefreshOk) => (Phase::Waiting, TickAction::WaitTick),
        (Phase::Refreshing { retry }, TickEvent::RefreshFailed) => if retry {
            (Phase::Waiting, TickAction::WaitTick)
        } else {
            (Phase::Grace, TickAction::WaitGrace)
        },
        (Phase::Grace, TickEvent::GraceElapsed { connected }) => if connected {
            (Phase::Refreshing { retry: true }, TickAction::Refresh)
        } else {
            (Phase::Waiting, TickAction::WaitTick)
        },
        _ => (p, TickAction::Ignore),
    }
}

/// The keepalive supervisor of one connection.
pub struct Keepalive {
    pub phase: Phase,
}

impl Keepalive {
    /// A supervisor for a session that has just connected: it waits for the
    /// first tick.
    pub fn new() -> (r: Keepalive)
        ensures
            r.phase == Phase::Waiting,
    {
        Keepalive { phase: Phase::Waiting }
    }

    pub fn step(&mut self, e: TickEvent) -> (a: TickAction)
        ensures
            (final(self).phase, a) == tick_next(old(self).phase, e),
    {
        let (p, a) = match (self.phase, e) {
            (Phase::Stopped, _) => (Phase::Stopped, TickAction::Exit),
            (Phase::Waiting, TickEvent::Tick { connected }) => if connected {
                (Phase::Pinging, TickAction::Ping)
            } else {
                (Phase::Stopped, TickAction::Exit)
            },
            (Phase::Pinging, TickEvent::PingOk) => (
                Phase::Refreshing { retry: false },
                TickAction::Refresh,
            ),
            (Phase::Pinging, TickEvent::PingFailed) => (Phase::Stopped, TickAction::NotifyLost),
            (Phase::Refreshing { .. }, TickEvent::RefreshOk) => (Phase::Waiting, TickAction::WaitTick),
            (Phase::Refreshing { retry }, TickEvent::RefreshFailed) => if retry {
                (Phase::Waiting, TickAction::WaitTick)
            } else {
                (Phase::Grace, TickAction::WaitGrace)
            },
            (Phase::Grace, TickEvent::GraceElapsed { connected }) => if connected {
                (Phase::Refreshing { retry: true }, TickAction::Refresh)
            } else {
                (Phase::Waiting, TickAction::WaitTick)
            },
            (p, _) => (p, TickAction::Ignore),
        };
        self.phase = p;
        a
    }
}

/// A refresh that fails after a successful keepalive is retried exactly once,
/// after the grace period: the retry's outcome, whatever it is, ends the
/// cycle, and the next tick pings and refreshes again.
pub proof fn lemma_refresh_retried_once(after_retry: TickEvent, connected_at_tick: bool)
    ensures
        tick_next(Phase::Pinging, TickEvent::PingOk) == (
            Phase::Refreshing { retry: false },
            TickAction::Refresh,
        ),
        tick_next(Phase::Refreshing { retry: false }, TickEvent::RefreshFailed) == (
            Phase::Grace,
            TickAction::WaitGrace,
        ),
        tick_next(Phase::Grace, TickEvent::GraceElapsed { connected: true }) == (
            Phase::Refreshing { retry: true },
            TickAction::Refresh,
        ),
        after_retry is RefreshOk || after_retry is RefreshFailed ==> tick_next(
            Phase::Refreshing { retry: true },
            after_retry,
        ) == (Phase::Waiting, TickAction::WaitTick),
        tick_next(Phase::Refreshing { retry: true }, after_retry).1 != TickAction::Refresh,
        tick_next(Phase::Waiting, TickEvent::Tick { connected: connected_at_tick }).1 == if connected_at_tick {
            TickAction::Ping
        } else {
            TickAction::Exit
        },
{
}

/// The connection-lost notice comes at most once: once the supervisor has
/// stopped, every event ends it again and nothing else.
pub proof fn lemma_lost_notified_once(p: Phase, e: TickEvent, e2: TickEvent)
    ensures
        tick_next(p, e).1 == TickAction::NotifyLost ==> tick_next(p, e).0 == Phase::Stopped,
        tick_next(Phase::Stopped, e2) == (Phase::Stopped, TickAction::Exit),
{
}

} // verus!
