use gobai::db::db_status_message;
use gobai::text::{push_decimal, push_signed_decimal};

#[test]
fn status_message_lists_tables_in_order() {
    let names: Vec<String> = vec![
        "artifacts", "intake_reports", "messages", "phase_runs", "subtasks", "task_state_log",
        "tasks",
    ]
    .into_iter()
    .map(String::from)
    .collect();
    assert_eq!(
        db_status_message(&names),
        "connected (7 tables: artifacts, intake_reports, messages, phase_runs, subtasks, task_state_log, tasks)"
    );
}

#[test]
fn status_message_with_no_tables() {
    assert_eq!(db_status_message(&Vec::new()), "connected (0 tables: )");
}

#[test]
fn status_message_with_one_table() {
    assert_eq!(db_status_message(&vec!["tasks".to_string()]), "connected (1 tables: tasks)");
}

#[test]
fn decimal_matches_std_formatting() {
    for n in [0u64, 7, 10, 42, 100, 1_500_000, u64::MAX] {
        let mut s = String::from("n=");
        push_decimal(&mut s, n);
        assert_eq!(s, format!("n={n}"));
    }
}

#[test]
fn signed_decimal_matches_std_formatting() {
    for n in [0i64, 5, -5, 42, -1000, i64::MAX, i64::MIN] {
        let mut s = String::new();
        push_signed_decimal(&mut s, n);
        assert_eq!(s, n.to_string());
    }
}
