//! Session state: which alert condition is currently tracked, how many
//! alerts were emitted for it, and which kind of session ended last.

use vstd::prelude::*;

verus! {

/// The kind of alert condition a session tracks: none at all, the battery
/// charging above the high threshold, or discharging below the low threshold.
#[derive(Clone, Copy, Debug, PartialEq, Eq, Structural)]
pub enum SessionType {
    /// No condition is tracked.
    Idle,
    /// The battery is charging and at or above the high threshold.
    AboveThreshold,
    /// The battery is discharging and at or below the low threshold.
    BelowThreshold,
}

/// The engine's sole mutable state.
#[derive(Clone, Copy, Debug, PartialEq, Eq, Structural)]
pub struct NotificationSession {
    /// The condition currently tracked, or `Idle` when no session is active.
    pub session_type: SessionType,
    /// Alerts emitted in the current session; zero while idle.
    pub attempts_made: u64,
    /// The kind of the most recently completed session, used for debounce;
    /// cleared once a sample falls in the safe zone.
    pub last_ended_session: SessionType,
}

impl NotificationSession {
    /// Invariant the engine maintains between ticks, for a given attempt
    /// limit: the attempt counter never exceeds the limit, is zero while
    /// idle, and stays strictly below the limit while a session is active
    /// (a session ends on the very tick its counter reaches the limit).
    pub open spec fn inv(self, max_attempts: u64) -> bool {
        &&& self.attempts_made <= max_attempts
        &&& self.session_type == SessionType::Idle ==> self.attempts_made == 0
        &&& self.session_type != SessionType::Idle ==> self.attempts_made < max_attempts
    }

    /// A fresh session: idle, no attempts, nothing ended yet.
    pub fn new() -> (s: Self)
        ensures
            s.session_type == SessionType::Idle,
            s.attempts_made == 0,
            s.last_ended_session == SessionType::Idle,
    {
        Self {
            session_type: SessionType::Idle,
            attempts_made: 0,
            last_ended_session: SessionType::Idle,
        }
    }

    /// Whether a session is currently active.
    pub fn is_active(&self) -> (r: bool)
        ensures
            r == (self.session_type != SessionType::Idle),
    {
        self.session_type != SessionType::Idle
    }

    /// Whether the current session still has alert attempts left.
    pub fn should_notify(&self, max_attempts: u64) -> (r: bool)
        ensures
            r == (self.attempts_made < max_attempts),
    {
        self.attempts_made < max_attempts
    }

    /// Begins a session of the given kind with a fresh attempt counter.
    pub fn start_session(&mut self, session_type: SessionType)
        ensures
            final(self).session_type == session_type,
            final(self).attempts_made == 0,
            final(self).last_ended_session == old(self).last_ended_session,
    {
        self.session_type = session_type;
        self.attempts_made = 0;
    }

    /// Records one emitted alert.
    pub fn increment_attempt(&mut self)
        requires
            old(self).attempts_made < u64::MAX,
        ensures
            final(self).attempts_made == old(self).attempts_made + 1,
            final(self).session_type == old(self).session_type,
            final(self).last_ended_session == old(self).last_ended_session,
    {
        self.attempts_made = self.attempts_made + 1;
    }

    /// Ends the current session, remembering its kind for debounce.
    pub fn end_session(&mut self)
        ensures
            final(self).last_ended_session == old(self).session_type,
            final(self).session_type == SessionType::Idle,
            final(self).attempts_made == 0,
    {
        self.last_ended_session = self.session_type;
        self.session_type = SessionType::Idle;
        self.attempts_made = 0;
    }

    /// A session of the given kind may start only while no session is active
    /// and the most recently ended session was of a different kind (or none
    /// ended since the safe zone was last observed).
    pub fn can_start_session(&self, session_type: SessionType) -> (r: bool)
        ensures
            r == (self.session_type == SessionType::Idle
                && self.last_ended_session != session_type),
    {
        !self.is_active() && self.last_ended_session != session_type
    }

    /// Forgets the most recently ended session, lifting the debounce.
    pub fn clear_last_ended(&mut self)
        ensures
            final(self).last_ended_session == SessionType::Idle,
            final(self).session_type == old(self).session_type,
            final(self).attempts_made == old(self).attempts_made,
    {
        self.last_ended_session = SessionType::Idle;
    }
}

} // verus!
