//! Laws of the session engine, stated over the per-tick transition and
//! proved for every configuration, sample and session state.

use vstd::prelude::*;
use crate::engine::in_safe_zone;
use crate::engine::next_session;
use crate::engine::sample_above;
use crate::engine::sample_below;
use crate::engine::tick_emits;
use crate::sample::Config;
use crate::sample::Sample;
use crate::session::NotificationSession;
use crate::session::SessionType;

verus! {

/// The alert kind opposite to the given one.
pub open spec fn opposite(k: SessionType) -> SessionType {
    match k {
        SessionType::AboveThreshold => SessionType::BelowThreshold,
        SessionType::BelowThreshold => SessionType::AboveThreshold,
        SessionType::Idle => SessionType::Idle,
    }
}

/// The alert condition belonging to the given kind holds of the sample.
pub open spec fn condition_holds(cfg: Config, sample: Sample, k: SessionType) -> bool {
    match k {
        SessionType::AboveThreshold => sample_above(cfg, sample),
        SessionType::BelowThreshold => sample_below(cfg, sample),
        SessionType::Idle => false,
    }
}

/// The session state after feeding a whole series of samples, one per tick.
pub open spec fn run(cfg: Config, s: NotificationSession, samples: Seq<Sample>) -> NotificationSession
    decreases samples.len(),
{
    if samples.len() == 0 {
        s
    } else {
        run(cfg, next_session(cfg, samples[0], s), samples.drop_first())
    }
}

/// Alerts emitted over a series of ticks while the session that is active at
/// the start stays active: counting stops on the tick the engine goes idle.
pub open spec fn session_emits(cfg: Config, s: NotificationSession, samples: Seq<Sample>) -> nat
    decreases samples.len(),
{
    if s.session_type == SessionType::Idle || samples.len() == 0 {
        0
    } else {
        (if tick_emits(cfg, samples[0], s) {
            1nat
        } else {
            0nat
        }) + session_emits(cfg, next_session(cfg, samples[0], s), samples.drop_first())
    }
}

/// Idempotence of the safe zone: a sample with neither condition holding
/// never emits an alert and leaves the engine idle within that one tick.
pub proof fn lemma_safe_zone_quiet(cfg: Config, sample: Sample, s: NotificationSession)
    requires
        s.inv(cfg.max_attempts),
        in_safe_zone(cfg, sample),
    ensures
        !tick_emits(cfg, sample, s),
        next_session(cfg, sample, s).session_type == SessionType::Idle,
        next_session(cfg, sample, s).attempts_made == 0,
{
}

/// Debounce: right after a session of kind `k` ends, no single tick starts a
/// session of kind `k` again; and until a tick observes the safe zone or the
/// opposite condition, the engine does not move at all, so the block holds
/// across any run of such ticks.
pub proof fn lemma_debounce(cfg: Config, sample: Sample, s: NotificationSession, k: SessionType)
    requires
        s.session_type == SessionType::Idle,
        s.last_ended_session == k,
        k != SessionType::Idle,
    ensures
        next_session(cfg, sample, s).session_type != k,
        !in_safe_zone(cfg, sample) && !condition_holds(cfg, sample, opposite(k))
            ==> next_session(cfg, sample, s) == s,
{
}

/// Opposite-kind immediate start: right after a session of kind `k` ends, a
/// tick whose opposite condition holds starts the opposite session and emits
/// its first alert at once, with no safe-zone tick in between; with an
/// attempt limit of one that first alert already exhausts the session.
pub proof fn lemma_opposite_start(cfg: Config, sample: Sample, s: NotificationSession, k: SessionType)
    requires
        cfg.max_attempts >= 1,
        s.session_type == SessionType::Idle,
        s.last_ended_session == k,
        k != SessionType::Idle,
        condition_holds(cfg, sample, opposite(k)),
    ensures
        tick_emits(cfg, sample, s),
        cfg.max_attempts > 1 ==> next_session(cfg, sample, s) == (NotificationSession {
            session_type: opposite(k),
            attempts_made: 1,
            last_ended_session: k,
        }),
        cfg.max_attempts == 1 ==> next_session(cfg, sample, s) == (NotificationSession {
            session_type: SessionType::Idle,
            attempts_made: 0,
            last_ended_session: opposite(k),
        }),
{
}

/// Every tick preserves the engine's invariant.
pub proof fn lemma_inv_preserved(cfg: Config, sample: Sample, s: NotificationSession)
    requires
        cfg.max_attempts >= 1,
        s.inv(cfg.max_attempts),
    ensures
        next_session(cfg, sample, s).inv(cfg.max_attempts),
{
}

/// Exhaustion is exact: an emitting tick ends the session precisely when it
/// brings the attempt counter to the limit, and otherwise only advances the
/// counter by one.
pub proof fn lemma_exhaustion(cfg: Config, sample: Sample, s: NotificationSession)
    requires
        tick_emits(cfg, sample, s),
    ensures
        s.session_type != SessionType::Idle ==> (next_session(cfg, sample, s).session_type
            == SessionType::Idle <==> s.attempts_made + 1 == cfg.max_attempts),
        s.session_type != SessionType::Idle && s.attempts_made + 1 < cfg.max_attempts
            ==> next_session(cfg, sample, s) == (NotificationSession {
            attempts_made: (s.attempts_made + 1) as u64,
            ..s
        }),
        s.session_type != SessionType::Idle && s.attempts_made + 1 == cfg.max_attempts
            ==> next_session(cfg, sample, s) == (NotificationSession {
            session_type: SessionType::Idle,
            attempts_made: 0,
            last_ended_session: s.session_type,
        }),
        s.session_type == SessionType::Idle ==> (next_session(cfg, sample, s).session_type
            == SessionType::Idle <==> cfg.max_attempts == 1),
{
}

/// Attempt bound: over any series of ticks, the session active at the start
/// emits at most `max_attempts - attempts_made` further alerts before it
/// ends; a session observed at its start therefore emits at most
/// `max_attempts` alerts in all.
pub proof fn lemma_session_attempt_bound(cfg: Config, s: NotificationSession, samples: Seq<Sample>)
    requires
        s.session_type != SessionType::Idle ==> s.attempts_made <= cfg.max_attempts,
    ensures
        session_emits(cfg, s, samples) + (if s.session_type != SessionType::Idle {
            s.attempts_made as int
        } else {
            0
        }) <= cfg.max_attempts,
    decreases samples.len(),
{
    if s.session_type == SessionType::Idle || samples.len() == 0 {
    } else {
        let s2 = next_session(cfg, samples[0], s);
        if tick_emits(cfg, samples[0], s) {
            assert(s.attempts_made < cfg.max_attempts);
        }
        assert(s2.session_type != SessionType::Idle ==> s2.attempts_made <= cfg.max_attempts);
        lemma_session_attempt_bound(cfg, s2, samples.drop_first());
    }
}

/// A disabled high threshold never starts an above-threshold session: one
/// tick never moves an engine into that session kind.
pub proof fn lemma_disabled_high_no_start(cfg: Config, sample: Sample, s: NotificationSession)
    requires
        !cfg.high_enabled,
        s.session_type != SessionType::AboveThreshold,
    ensures
        next_session(cfg, sample, s).session_type != SessionType::AboveThreshold,
{
}

/// A disabled low threshold never starts a below-threshold session.
pub proof fn lemma_disabled_low_no_start(cfg: Config, sample: Sample, s: NotificationSession)
    requires
        !cfg.low_enabled,
        s.session_type != SessionType::BelowThreshold,
    ensures
        next_session(cfg, sample, s).session_type != SessionType::BelowThreshold,
{
}

/// A disabled high threshold never starts an above-threshold session over
/// any run, however long, whatever the samples.
pub proof fn lemma_disabled_high_run(cfg: Config, s: NotificationSession, samples: Seq<Sample>)
    requires
        !cfg.high_enabled,
        s.session_type != SessionType::AboveThreshold,
    ensures
        run(cfg, s, samples).session_type != SessionType::AboveThreshold,
    decreases samples.len(),
{
    if samples.len() == 0 {
    } else {
        lemma_disabled_high_no_start(cfg, samples[0], s);
        lemma_disabled_high_run(cfg, next_session(cfg, samples[0], s), samples.drop_first());
    }
}

/// A disabled low threshold never starts a below-threshold session over any
/// run.
pub proof fn lemma_disabled_low_run(cfg: Config, s: NotificationSession, samples: Seq<Sample>)
    requires
        !cfg.low_enabled,
        s.session_type != SessionType::BelowThreshold,
    ensures
        run(cfg, s, samples).session_type != SessionType::BelowThreshold,
    decreases samples.len(),
{
    if samples.len() == 0 {
    } else {
        lemma_disabled_low_no_start(cfg, samples[0], s);
        lemma_disabled_low_run(cfg, next_session(cfg, samples[0], s), samples.drop_first());
    }
}

} // verus!
