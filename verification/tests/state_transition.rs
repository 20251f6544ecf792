use gobai::clock::{
    current_timestamp, stamped_time_of, ClockReading, FIRST_FOUR_DIGIT_YEAR_SECOND,
    LAST_FOUR_DIGIT_YEAR_SECOND,
};
use gobai::state_transition::{transition_request, TransitionError};

#[test]
fn plan_updates_status_and_logs_previous_state() {
    let req = transition_request(7, "intake", "user_run");
    let w = req.plan(Some("pending".to_string())).unwrap();
    assert_eq!(w.update.task_id, 7);
    assert_eq!(w.update.status, "intake");
    assert_eq!(w.log.task_id, 7);
    assert_eq!(
        (w.log.old_state.as_str(), w.log.new_state.as_str(), w.log.reason.as_str()),
        ("pending", "intake", "user_run")
    );
    assert_eq!(w.update.updated_at, w.log.occurred_at);
    assert_eq!(w.log.occurred_at, req.occurred_at);
}

#[test]
fn plan_for_missing_task_is_task_not_found() {
    let req = transition_request(999, "intake", "user_run");
    assert!(matches!(req.plan(None), Err(TransitionError::TaskNotFound(999))));
}

#[test]
fn same_state_transition_is_planned() {
    let req = transition_request(1, "pending", "noop_replay");
    let w = req.plan(Some("pending".to_string())).unwrap();
    assert_eq!(w.log.old_state, "pending");
    assert_eq!(w.log.new_state, "pending");
    assert_eq!(w.log.reason, "noop_replay");
}

#[test]
fn consecutive_plans_chain_old_state() {
    let first = transition_request(3, "intake", "r1").plan(Some("pending".to_string())).unwrap();
    let second = transition_request(3, "waiting_intake", "r2")
        .plan(Some(first.update.status.clone()))
        .unwrap();
    assert_eq!((first.log.old_state.as_str(), first.log.new_state.as_str()), ("pending", "intake"));
    assert_eq!(
        (second.log.old_state.as_str(), second.log.new_state.as_str()),
        ("intake", "waiting_intake")
    );
}

#[test]
fn request_is_stamped_in_rfc3339_utc_millis() {
    let req = transition_request(1, "a", "b");
    let ts = req.occurred_at.as_bytes();
    assert_eq!(ts.len(), 24, "{}", req.occurred_at);
    assert_eq!(ts[10], b'T');
    assert_eq!(ts[19], b'.');
    assert_eq!(ts[23], b'Z');
}

#[test]
fn transition_error_messages() {
    assert_eq!(TransitionError::TaskNotFound(999).message(), "タスクが見つかりません (id=999)");
    assert_eq!(TransitionError::TaskNotFound(-3).message(), "タスクが見つかりません (id=-3)");
    let e = TransitionError::Sqlx(sqlx::Error::RowNotFound);
    assert_eq!(
        e.message(),
        format!("状態遷移の永続化に失敗しました: {}", sqlx::Error::RowNotFound)
    );
}

#[test]
fn from_sqlx_error_is_sqlx_variant() {
    let e: TransitionError = sqlx::Error::RowNotFound.into();
    assert!(matches!(e, TransitionError::Sqlx(sqlx::Error::RowNotFound)));
}

#[test]
fn stamped_time_keeps_clock_within_four_digit_years() {
    let r = ClockReading { before_epoch: false, secs: 1_776_988_800, nanos: 5 };
    assert_eq!(stamped_time_of(&r), (1_776_988_800, 5));
    let r = ClockReading { before_epoch: true, secs: 10, nanos: 0 };
    assert_eq!(stamped_time_of(&r), (-10, 0));
    let r = ClockReading { before_epoch: true, secs: 10, nanos: 7 };
    assert_eq!(stamped_time_of(&r), (-11, 999_999_993));
    let r = ClockReading { before_epoch: true, secs: u64::MAX, nanos: 7 };
    assert_eq!(stamped_time_of(&r), (FIRST_FOUR_DIGIT_YEAR_SECOND, 0));
    let r = ClockReading { before_epoch: false, secs: u64::MAX, nanos: 9 };
    assert_eq!(stamped_time_of(&r), (LAST_FOUR_DIGIT_YEAR_SECOND, 999_999_999));
}

#[test]
fn current_timestamp_is_rfc3339_millis_utc() {
    let ts = current_timestamp();
    assert_eq!(ts.len(), 24, "{ts}");
    assert!(ts.ends_with('Z'));
    assert_eq!(&ts[19..20], ".");
    assert_ne!(ts, "2026-04-24T00:00:00Z");
}
