//! The per-connection lifecycle: greeting, optional challenge, spawn,
//! relay, teardown. The state machine guarantees that the spawned process
//! group is killed exactly once on every path that spawned one, and never
//! twice.

use vstd::prelude::*;

verus! {

/// Where a connection stands in its life.
#[derive(Clone, Copy, Debug, PartialEq, Eq, Structural)]
pub enum Phase {
    /// The connection was just accepted; the greeting is owed.
    Greeting,
    /// The proof-of-work challenge is running.
    Challenge,
    /// The external program is about to be spawned.
    Spawning,
    /// Bytes are relayed between the client and the program.
    Relaying,
    /// The relay ended; the process group must now be killed.
    TearingDown,
    /// The connection is done; nothing remains to clean up.
    Closed,
}

/// Which of the raced activities ended the relay first.
#[derive(Clone, Copy, Debug, PartialEq, Eq, Structural)]
pub enum RelayEnd {
    /// The client closed or sent a cancel byte.
    PeerClosed,
    /// The program closed its standard output.
    ProcessClosed,
    /// The configured inactivity timeout elapsed.
    TimedOut,
    /// A read or write on either side failed.
    IoError,
}

/// What a kill attempt on the process group came back with.
#[derive(Clone, Copy, Debug, PartialEq, Eq, Structural)]
pub enum KillResult {
    /// The group was terminated.
    Killed,
    /// The group had already exited: success, not an error.
    AlreadyExited,
    /// The group survived for some other reason: a hard error.
    Failed,
}

/// One connection's state: its phase, the configured difficulty, how many
/// kill attempts were recorded against its process group, and which
/// activity ended the relay.
#[derive(Clone, Copy, Debug)]
pub struct Session {
    /// Current phase of the connection.
    pub phase: Phase,
    /// Configured proof-of-work difficulty; zero disables the challenge.
    pub difficulty: u32,
    /// Kill attempts recorded so far.
    pub kills: u32,
    /// The one outcome that ended the relay, once it has.
    pub outcome: Option<RelayEnd>,
}

impl Session {
    /// The lifecycle invariant: the process group is killed at most once,
    /// and only when tearing down leads to `Closed`.
    pub open spec fn wf(&self) -> bool {
        &&& self.kills <= 1
        &&& self.phase != Phase::Closed ==> self.kills == 0
        &&& (self.phase == Phase::Greeting || self.phase == Phase::Challenge || self.phase
            == Phase::Spawning || self.phase == Phase::Relaying) ==> self.outcome is None
    }

    /// A fresh session for one accepted connection.
    pub fn new(difficulty: u32) -> (s: Self)
        ensures
            s.wf(),
            s.phase == Phase::Greeting,
            s.difficulty == difficulty,
            s.kills == 0,
            s.outcome is None,
    {
        Session { phase: Phase::Greeting, difficulty, kills: 0, outcome: None }
    }

    /// The greeting went out. The challenge runs iff a nonzero difficulty
    /// is configured; with zero, the relay is set up immediately.
    pub fn after_greeting(&mut self) -> (challenge: bool)
        requires
            old(self).wf(),
            old(self).phase == Phase::Greeting,
        ensures
            final(self).wf(),
            challenge == (old(self).difficulty > 0),
            final(self).phase == if challenge {
                Phase::Challenge
            } else {
                Phase::Spawning
            },
            final(self).difficulty == old(self).difficulty,
            final(self).kills == 0,
            final(self).outcome == old(self).outcome,
    {
        if self.difficulty > 0 {
            self.phase = Phase::Challenge;
            true
        } else {
            self.phase = Phase::Spawning;
            false
        }
    }

    /// The challenge ended. Acceptance leads to the spawn; rejection
    /// closes the connection with no process to clean up.
    pub fn after_challenge(&mut self, accepted: bool)
        requires
            old(self).wf(),
            old(self).phase == Phase::Challenge,
        ensures
            final(self).wf(),
            final(self).phase == if accepted {
                Phase::Spawning
            } else {
                Phase::Closed
            },
            final(self).difficulty == old(self).difficulty,
            final(self).kills == 0,
    {
        if accepted {
            self.phase = Phase::Spawning;
        } else {
            self.phase = Phase::Closed;
        }
    }

    /// The spawn either produced a process group (the relay starts) or
    /// failed (the connection closes; there is nothing to kill).
    pub fn after_spawn(&mut self, ok: bool)
        requires
            old(self).wf(),
            old(self).phase == Phase::Spawning,
        ensures
            final(self).wf(),
            final(self).phase == if ok {
                Phase::Relaying
            } else {
                Phase::Closed
            },
            final(self).difficulty == old(self).difficulty,
            final(self).kills == 0,
    {
        if ok {
            self.phase = Phase::Relaying;
        } else {
            self.phase = Phase::Closed;
        }
    }

    /// The first of the raced activities finished: every such end, clean
    /// or not, leads to teardown exactly once, and that one outcome is
    /// what decides how the connection ends.
    pub fn finish_relay(&mut self, outcome: RelayEnd)
        requires
            old(self).wf(),
            old(self).phase == Phase::Relaying,
        ensures
            final(self).wf(),
            final(self).phase == Phase::TearingDown,
            final(self).difficulty == old(self).difficulty,
            final(self).kills == 0,
            final(self).outcome == Some(outcome),
    {
        self.phase = Phase::TearingDown;
        self.outcome = Some(outcome);
    }

    /// Records the one kill attempt of the teardown. An already-exited
    /// group counts as success; only any other failure is fatal.
    pub fn record_kill(&mut self, r: KillResult) -> (fatal: bool)
        requires
            old(self).wf(),
            old(self).phase == Phase::TearingDown,
        ensures
            final(self).wf(),
            final(self).phase == Phase::Closed,
            final(self).difficulty == old(self).difficulty,
            final(self).kills == 1,
            final(self).outcome == old(self).outcome,
            fatal == (r == KillResult::Failed),
    {
        self.phase = Phase::Closed;
        self.kills = self.kills + 1;
        match r {
            KillResult::Failed => true,
            KillResult::Killed => false,
            KillResult::AlreadyExited => false,
        }
    }
}

} // verus!
