//! Keeping a suspended session alive. A suspended session belongs to the
//! keep-alive loop and to nobody else; the loop gives it back when it is
//! told to stop.

use vstd::prelude::*;

verus! {

/// Milliseconds that the loop sleeps between two keep-alive commands.
pub const KEEP_ALIVE_INTERVAL_MILLIS: u64 = 1000;

/// Where the keep-alive loop stands.
#[derive(Clone, Copy, Debug, PartialEq, Eq, Structural)]
pub enum KeepAlivePhase {
    /// The next thing to do, unless told to stop, is to send a no-op.
    Sending,
    /// The next thing to do, unless told to stop, is to sleep.
    Sleeping,
}

/// A suspended session, owned by its keep-alive loop.
pub struct KeepAlive<S> {
    session: S,
    phase: KeepAlivePhase,
}

/// What the keep-alive loop does next.
pub enum KeepAliveStep<S> {
    /// Send a no-op on the session, then ask again.
    SendNoop(KeepAlive<S>),
    /// Sleep for the given number of milliseconds, then ask again.
    Sleep(KeepAlive<S>, u64),
    /// Stop. The session is active again and belongs to the caller.
    HandBack(S),
}

impl<S> KeepAlive<S> {
    /// The suspended session.
    pub closed spec fn session(&self) -> S {
        self.session
    }

    /// Where the loop stands.
    pub closed spec fn phase(&self) -> KeepAlivePhase {
        self.phase
    }

    /// Suspends `session`: from here on it belongs to the keep-alive loop.
    pub fn idlize(session: S) -> (idle: Self)
        ensures
            idle.session() == session,
            idle.phase() == KeepAlivePhase::Sending,
    {
        KeepAlive { session, phase: KeepAlivePhase::Sending }
    }

    /// The session, for the loop to send its no-op on.
    pub fn session_mut(&mut self) -> (session: &mut S)
        ensures
            *session == old(self).session(),
            final(self).session() == *final(session),
            final(self).phase() == old(self).phase(),
    {
        &mut self.session
    }

    /// What [`KeepAlive::step`] returns.
    pub closed spec fn after(self, stop: bool) -> KeepAliveStep<S> {
        if stop {
            KeepAliveStep::HandBack(self.session)
        } else {
            match self.phase {
                KeepAlivePhase::Sending => KeepAliveStep::SendNoop(
                    KeepAlive { session: self.session, phase: KeepAlivePhase::Sleeping },
                ),
                KeepAlivePhase::Sleeping => KeepAliveStep::Sleep(
                    KeepAlive { session: self.session, phase: KeepAlivePhase::Sending },
                    KEEP_ALIVE_INTERVAL_MILLIS,
                ),
            }
        }
    }

    /// The next step of the loop, given whether it was told to stop. The
    /// stop flag is looked at before every no-op and before every sleep:
    /// once it is set, the loop does neither and hands the session back.
    pub fn step(self, stop: bool) -> (next: KeepAliveStep<S>)
        ensures
            next == self.after(stop),
            stop ==> next == KeepAliveStep::HandBack(self.session()),
            !stop && self.phase() == KeepAlivePhase::Sending ==> (next matches KeepAliveStep::SendNoop(
                idle,
            ) && idle.session() == self.session() && idle.phase() == KeepAlivePhase::Sleeping),
            !stop && self.phase() == KeepAlivePhase::Sleeping ==> (next matches KeepAliveStep::Sleep(
                idle,
                millis,
            ) && idle.session() == self.session() && idle.phase() == KeepAlivePhase::Sending
                && millis == KEEP_ALIVE_INTERVAL_MILLIS),
    {
        if stop {
            return KeepAliveStep::HandBack(self.session);
        }
        match self.phase {
            KeepAlivePhase::Sending => KeepAliveStep::SendNoop(
                KeepAlive { session: self.session, phase: KeepAlivePhase::Sleeping },
            ),
            KeepAlivePhase::Sleeping => KeepAliveStep::Sleep(
                KeepAlive { session: self.session, phase: KeepAlivePhase::Sending },
                KEEP_ALIVE_INTERVAL_MILLIS,
            ),
        }
    }

    /// Ends the suspension at once, without another step of the loop.
    pub fn done(self) -> (session: S)
        ensures
            session == self.session(),
    {
        self.session
    }
}

/// A suspended session is in one place at a time. After a step it is either
/// still with the loop or back with the caller, and it is the session that
/// was suspended. A step that was told to stop always gives it back, and no
/// other step does.
pub proof fn lemma_session_has_one_owner<S>(idle: KeepAlive<S>, stop: bool)
    ensures
        match idle.after(stop) {
            KeepAliveStep::SendNoop(next) => !stop && next.session() == idle.session(),
            KeepAliveStep::Sleep(next, _) => !stop && next.session() == idle.session(),
            KeepAliveStep::HandBack(session) => stop && session == idle.session(),
        },
{
}

} // verus!
