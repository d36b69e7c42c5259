//! The per-tick transition: classify the sample, handle the safe zone,
//! start or continue a session, and emit at most one alert.

use vstd::prelude::*;
use crate::render::body_seq;
use crate::render::render_body;
use crate::render::render_summary;
use crate::render::summary_seq;
use crate::sample::ChargeState;
use crate::sample::Config;
use crate::sample::Sample;
use crate::session::NotificationSession;
use crate::session::SessionType;

verus! {

/// An alert the engine asks the surrounding program to display.
#[derive(Debug)]
pub struct AlertIntent {
    /// Headline: the battery's charge direction.
    pub summary: String,
    /// Body: the charge rounded to a whole percent.
    pub body: String,
}

/// The sample is charging at or above the high threshold, and that
/// threshold is watched.
pub open spec fn sample_above(cfg: Config, sample: Sample) -> bool {
    &&& cfg.high_enabled
    &&& sample.charge_state == ChargeState::Charging
    &&& sample.percentage.hundredths >= cfg.high_threshold * 100
}

/// The sample is discharging at or below the low threshold, and that
/// threshold is watched.
pub open spec fn sample_below(cfg: Config, sample: Sample) -> bool {
    &&& cfg.low_enabled
    &&& sample.charge_state == ChargeState::Discharging
    &&& sample.percentage.hundredths <= cfg.low_threshold * 100
}

/// Neither alert condition holds of the sample.
pub open spec fn in_safe_zone(cfg: Config, sample: Sample) -> bool {
    !sample_above(cfg, sample) && !sample_below(cfg, sample)
}

/// The state after ending the active session: idle, counter reset, and the
/// ended kind remembered for debounce.
pub open spec fn ended(s: NotificationSession) -> NotificationSession {
    NotificationSession {
        session_type: SessionType::Idle,
        attempts_made: 0,
        last_ended_session: s.session_type,
    }
}

/// Safe-zone handling, run first each tick: in the safe zone an active
/// session ends; an idle engine instead forgets the last ended kind,
/// lifting the debounce.
pub open spec fn after_safe_zone(
    cfg: Config,
    sample: Sample,
    s: NotificationSession,
) -> NotificationSession {
    if in_safe_zone(cfg, sample) {
        if s.session_type != SessionType::Idle {
            ended(s)
        } else if s.last_ended_session != SessionType::Idle {
            NotificationSession { last_ended_session: SessionType::Idle, ..s }
        } else {
            s
        }
    } else {
        s
    }
}

/// Session start, run second: an idle engine starts a session for a holding
/// condition, unless a session of that same kind ended most recently
/// (debounce).  An active session is left alone.
pub open spec fn after_start(
    cfg: Config,
    sample: Sample,
    s: NotificationSession,
) -> NotificationSession {
    if s.session_type == SessionType::Idle {
        if sample_above(cfg, sample) && s.last_ended_session != SessionType::AboveThreshold {
            NotificationSession { session_type: SessionType::AboveThreshold, attempts_made: 0, ..s }
        } else if sample_below(cfg, sample) && s.last_ended_session != SessionType::BelowThreshold {
            NotificationSession { session_type: SessionType::BelowThreshold, attempts_made: 0, ..s }
        } else {
            s
        }
    } else {
        s
    }
}

/// Whether the tick emits an alert, judged after safe-zone handling and
/// session start: a session is active, attempts remain, and the condition
/// matching the session's kind holds this tick.
pub open spec fn emits_now(cfg: Config, sample: Sample, s: NotificationSession) -> bool {
    &&& s.session_type != SessionType::Idle
    &&& s.attempts_made < cfg.max_attempts
    &&& match s.session_type {
        SessionType::AboveThreshold => sample_above(cfg, sample),
        SessionType::BelowThreshold => sample_below(cfg, sample),
        SessionType::Idle => false,
    }
}

/// Alert emission, run last: the attempt counter advances, and the session
/// ends on the very tick the counter reaches the limit (exhaustion).
pub open spec fn after_emit(
    cfg: Config,
    sample: Sample,
    s: NotificationSession,
) -> NotificationSession {
    if emits_now(cfg, sample, s) {
        let bumped = NotificationSession { attempts_made: (s.attempts_made + 1) as u64, ..s };
        if bumped.attempts_made == cfg.max_attempts {
            ended(bumped)
        } else {
            bumped
        }
    } else {
        s
    }
}

/// The session state after feeding one sample.
pub open spec fn next_session(
    cfg: Config,
    sample: Sample,
    s: NotificationSession,
) -> NotificationSession {
    after_emit(cfg, sample, after_start(cfg, sample, after_safe_zone(cfg, sample, s)))
}

/// Whether feeding one sample emits an alert.
pub open spec fn tick_emits(cfg: Config, sample: Sample, s: NotificationSession) -> bool {
    emits_now(cfg, sample, after_start(cfg, sample, after_safe_zone(cfg, sample, s)))
}

/// Feeds one battery reading to the engine: the session advances exactly as
/// `next_session` says, and an alert comes back precisely when `tick_emits`
/// holds, naming the charge direction and the charge rounded to a whole
/// percent.
pub fn evaluate(sample: &Sample, cfg: &Config, session: &mut NotificationSession) -> (r: Option<
    AlertIntent,
>)
    requires
        sample.wf(),
    ensures
        *final(session) == next_session(*cfg, *sample, *old(session)),
        r is Some <==> tick_emits(*cfg, *sample, *old(session)),
        r matches Some(intent) ==> intent.summary@ == summary_seq(
            sample.charge_state == ChargeState::Charging,
        ),
        r matches Some(intent) ==> intent.body@ == body_seq(sample.percentage.spec_rounded()),
{
    let above = cfg.high_enabled && sample.charge_state == ChargeState::Charging
        && sample.percentage.hundredths >= (cfg.high_threshold as u16) * 100;
    let below = cfg.low_enabled && sample.charge_state == ChargeState::Discharging
        && sample.percentage.hundredths <= (cfg.low_threshold as u16) * 100;

    // Safe-zone handling: end an active session, or clear a stale debounce.
    if !above && !below {
        if session.is_active() {
            session.end_session();
        } else if session.last_ended_session != SessionType::Idle {
            session.clear_last_ended();
        }
    }

    // Start a session for a holding condition, subject to debounce.
    match session.session_type {
        SessionType::Idle => {
            if above && session.can_start_session(SessionType::AboveThreshold) {
                session.start_session(SessionType::AboveThreshold);
            } else if below && session.can_start_session(SessionType::BelowThreshold) {
                session.start_session(SessionType::BelowThreshold);
            }
        },
        SessionType::AboveThreshold | SessionType::BelowThreshold => {},
    }

    // Emit while attempts remain and the session's own condition holds.
    if session.is_active() && session.should_notify(cfg.max_attempts) {
        let should_send = match session.session_type {
            SessionType::AboveThreshold => above,
            SessionType::BelowThreshold => below,
            SessionType::Idle => false,
        };
        if should_send {
            let intent = AlertIntent {
                summary: render_summary(sample.charge_state == ChargeState::Charging),
                body: render_body(sample.percentage.rounded()),
            };
            session.increment_attempt();
            if !session.should_notify(cfg.max_attempts) {
                session.end_session();
            }
            return Some(intent);
        }
    }
    None
}

} // verus!
