use rustcharge::engine::evaluate;
use rustcharge::sample::ChargeState;
use rustcharge::sample::Config;
use rustcharge::sample::Percentage;
use rustcharge::sample::Sample;
use rustcharge::session::NotificationSession;
use rustcharge::session::SessionType;

fn charging(percent: u8) -> Sample {
    Sample { charge_state: ChargeState::Charging, percentage: Percentage::from_whole(percent) }
}

fn discharging(percent: u8) -> Sample {
    Sample { charge_state: ChargeState::Discharging, percentage: Percentage::from_whole(percent) }
}

#[test]
fn high_session_with_debounce_and_recovery() {
    let cfg = Config::new(85, 20, true, true, 3);
    let mut session = NotificationSession::new();

    assert!(evaluate(&charging(80), &cfg, &mut session).is_none());
    assert_eq!(session.session_type, SessionType::Idle);

    let first = evaluate(&charging(86), &cfg, &mut session).expect("first alert");
    assert_eq!(first.summary, "Battery Status: Charging");
    assert_eq!(first.body, "Charge: 86%");
    assert_eq!(session.session_type, SessionType::AboveThreshold);
    assert_eq!(session.attempts_made, 1);

    let second = evaluate(&charging(87), &cfg, &mut session).expect("second alert");
    assert_eq!(second.body, "Charge: 87%");
    assert_eq!(session.attempts_made, 2);

    let third = evaluate(&charging(88), &cfg, &mut session).expect("third alert");
    assert_eq!(third.body, "Charge: 88%");
    // Exhausted: the session ends on the tick of its last attempt.
    assert_eq!(session.session_type, SessionType::Idle);
    assert_eq!(session.attempts_made, 0);
    assert_eq!(session.last_ended_session, SessionType::AboveThreshold);

    // Same condition on the very next tick: debounced, no new session.
    assert!(evaluate(&charging(89), &cfg, &mut session).is_none());
    assert_eq!(session.session_type, SessionType::Idle);

    // Safe zone clears the debounce record.
    assert!(evaluate(&charging(50), &cfg, &mut session).is_none());
    assert_eq!(session.last_ended_session, SessionType::Idle);

    // A fresh session may now start.
    let fresh = evaluate(&charging(90), &cfg, &mut session).expect("fresh alert");
    assert_eq!(fresh.body, "Charge: 90%");
    assert_eq!(session.attempts_made, 1);
}

#[test]
fn low_session_single_attempt() {
    let cfg = Config::new(85, 20, true, true, 1);
    let mut session = NotificationSession::new();

    let alert = evaluate(&discharging(15), &cfg, &mut session).expect("low alert");
    assert_eq!(alert.summary, "Battery Status: Discharging");
    assert_eq!(alert.body, "Charge: 15%");
    // One attempt allowed: the session ends immediately.
    assert_eq!(session.session_type, SessionType::Idle);
    assert_eq!(session.last_ended_session, SessionType::BelowThreshold);

    // Still below threshold next tick: debounced.
    assert!(evaluate(&discharging(14), &cfg, &mut session).is_none());

    // Any sample with neither condition holding clears the debounce.
    assert!(evaluate(&discharging(70), &cfg, &mut session).is_none());
    assert_eq!(session.last_ended_session, SessionType::Idle);

    let again = evaluate(&discharging(10), &cfg, &mut session).expect("second session");
    assert_eq!(again.body, "Charge: 10%");
}

#[test]
fn disabled_high_threshold_never_alerts() {
    let cfg = Config::new(85, 20, false, true, 15);
    let mut session = NotificationSession::new();

    for _ in 0..25 {
        assert!(evaluate(&charging(100), &cfg, &mut session).is_none());
        assert_eq!(session.session_type, SessionType::Idle);
    }
}

#[test]
fn disabled_low_threshold_never_alerts() {
    let cfg = Config::new(85, 20, true, false, 15);
    let mut session = NotificationSession::new();

    for _ in 0..25 {
        assert!(evaluate(&discharging(3), &cfg, &mut session).is_none());
        assert_eq!(session.session_type, SessionType::Idle);
    }
}

#[test]
fn sensor_failures_skip_ticks_without_corruption() {
    let cfg = Config::new(85, 20, true, true, 3);
    let mut session = NotificationSession::new();

    // Three ticks whose sensor read failed: the engine is simply not fed,
    // so its state is untouched.
    let untouched = session;
    assert_eq!(session, untouched);

    // The first successful tick emits the first alert of a new session.
    let alert = evaluate(&charging(90), &cfg, &mut session).expect("alert on success");
    assert_eq!(alert.summary, "Battery Status: Charging");
    assert_eq!(alert.body, "Charge: 90%");
    assert_eq!(session.session_type, SessionType::AboveThreshold);
    assert_eq!(session.attempts_made, 1);
}

#[test]
fn opposite_kind_starts_without_safe_zone() {
    let cfg = Config::new(85, 20, true, true, 1);
    let mut session = NotificationSession::new();

    // A high session starts and exhausts at once.
    assert!(evaluate(&charging(95), &cfg, &mut session).is_some());
    assert_eq!(session.last_ended_session, SessionType::AboveThreshold);

    // The opposite kind may start on the very next tick, no safe zone seen.
    let low = evaluate(&discharging(5), &cfg, &mut session).expect("opposite alert");
    assert_eq!(low.summary, "Battery Status: Discharging");
    assert_eq!(session.last_ended_session, SessionType::BelowThreshold);
}

#[test]
fn active_session_survives_condition_flip() {
    let cfg = Config::new(85, 20, true, true, 3);
    let mut session = NotificationSession::new();

    assert!(evaluate(&charging(86), &cfg, &mut session).is_some());
    assert_eq!(session.attempts_made, 1);

    // Below-threshold sample: not the safe zone, so the high session stays
    // active, but its condition does not hold, so nothing is emitted and
    // no attempt is spent.
    assert!(evaluate(&discharging(15), &cfg, &mut session).is_none());
    assert_eq!(session.session_type, SessionType::AboveThreshold);
    assert_eq!(session.attempts_made, 1);

    // Back above: the same session resumes emitting.
    assert!(evaluate(&charging(86), &cfg, &mut session).is_some());
    assert_eq!(session.attempts_made, 2);
}

#[test]
fn other_charge_state_is_safe_zone() {
    let cfg = Config::new(85, 20, true, true, 3);
    let mut session = NotificationSession::new();

    let full = Sample {
        charge_state: ChargeState::Other,
        percentage: Percentage::from_whole(100),
    };
    assert!(evaluate(&full, &cfg, &mut session).is_none());
    assert_eq!(session.session_type, SessionType::Idle);

    let empty = Sample {
        charge_state: ChargeState::Other,
        percentage: Percentage::from_whole(1),
    };
    assert!(evaluate(&empty, &cfg, &mut session).is_none());
    assert_eq!(session.session_type, SessionType::Idle);
}

#[test]
fn exact_threshold_counts() {
    let cfg = Config::new(85, 20, true, true, 3);
    let mut session = NotificationSession::new();

    // Exactly at the high threshold while charging: alerts.
    let at_high = evaluate(&charging(85), &cfg, &mut session).expect("at high threshold");
    assert_eq!(at_high.body, "Charge: 85%");

    let mut session = NotificationSession::new();
    // Exactly at the low threshold while discharging: alerts.
    let at_low = evaluate(&discharging(20), &cfg, &mut session).expect("at low threshold");
    assert_eq!(at_low.body, "Charge: 20%");
}

#[test]
fn fractional_readings_compare_and_round() {
    let cfg = Config::new(85, 20, true, true, 3);
    let mut session = NotificationSession::new();

    // 84.50%: below the high threshold, no alert.
    let under = Sample {
        charge_state: ChargeState::Charging,
        percentage: Percentage::new(8450),
    };
    assert!(evaluate(&under, &cfg, &mut session).is_none());

    // 85.49%: above the threshold; the body rounds to the nearest percent.
    let over = Sample {
        charge_state: ChargeState::Charging,
        percentage: Percentage::new(8549),
    };
    let alert = evaluate(&over, &cfg, &mut session).expect("fractional alert");
    assert_eq!(alert.body, "Charge: 85%");

    // 85.50%: halves round up.
    let mut session = NotificationSession::new();
    let half = Sample {
        charge_state: ChargeState::Charging,
        percentage: Percentage::new(8550),
    };
    let alert = evaluate(&half, &cfg, &mut session).expect("half-up alert");
    assert_eq!(alert.body, "Charge: 86%");
}

#[test]
fn extreme_percent_bodies() {
    let cfg = Config::new(85, 20, true, true, 3);

    let mut session = NotificationSession::new();
    let top = evaluate(&charging(100), &cfg, &mut session).expect("full charge alert");
    assert_eq!(top.body, "Charge: 100%");

    let mut session = NotificationSession::new();
    let bottom = evaluate(&discharging(0), &cfg, &mut session).expect("empty charge alert");
    assert_eq!(bottom.body, "Charge: 0%");
}
