use gobai::storage::{
    init_storage_at, StorageAction, StorageError, StorageOp, StorageOpKind, StoragePaths,
    CONTENT_DIR_NAME, DB_FILENAME, STORAGE_STEPS,
};
use gobai::StorageState;
use std::path::Path;

/// Drives the preparation, answering every step with the given outcome
/// (`None` for success), and records the steps asked for.
fn drive(
    root: &str,
    mut outcome: impl FnMut(&StorageOp) -> Option<std::io::Error>,
) -> (Result<StoragePaths, StorageError>, Vec<StorageOp>) {
    let (mut state, mut action) = init_storage_at(root);
    let mut ops = Vec::new();
    loop {
        match action {
            StorageAction::Finish(result) => return (result, ops),
            StorageAction::Perform(op) => {
                let result = match outcome(&op) {
                    None => Ok(()),
                    Some(e) => Err(e),
                };
                ops.push(op);
                let (next, next_action) = state.step(result);
                state = next;
                action = next_action;
            }
        }
    }
}

fn joined(base: &str, name: &str) -> String {
    Path::new(base).join(name).to_string_lossy().into_owned()
}

#[test]
fn init_storage_at_creates_root_and_content() {
    let root = "/var/lib/gobai-test/gobai";
    let (result, ops) = drive(root, |_| None);
    let p = result.unwrap();
    let created: Vec<&str> = ops
        .iter()
        .filter(|op| op.kind == StorageOpKind::CreateDir)
        .map(|op| op.path.as_str())
        .collect();
    assert_eq!(created, vec![root, p.content_dir.as_str()]);
    assert_eq!(p.content_dir, joined(root, CONTENT_DIR_NAME));
    assert_eq!(p.db, joined(root, DB_FILENAME));
    assert_eq!(p.root, root);
}

#[test]
fn init_storage_at_does_not_create_db_file() {
    let (result, ops) = drive("/srv/gobai", |_| None);
    let p = result.unwrap();
    assert!(ops.iter().all(|op| op.path != p.db));
}

#[test]
fn init_storage_at_is_idempotent() {
    let (r1, _) = drive("/srv/gobai", |_| None);
    let (r2, _) = drive("/srv/gobai", |_| None);
    let (p1, p2) = (r1.unwrap(), r2.unwrap());
    assert_eq!(p1.root, p2.root);
    assert_eq!(p1.content_dir, p2.content_dir);
    assert_eq!(p1.db, p2.db);
}

#[test]
fn storage_steps_create_then_restrict_both_directories() {
    let (result, ops) = drive("/data/gobai", |_| None);
    let p = result.unwrap();
    assert_eq!(ops.len(), STORAGE_STEPS);
    let summary: Vec<(StorageOpKind, String)> =
        ops.iter().map(|op| (op.kind, op.path.clone())).collect();
    assert_eq!(
        summary,
        vec![
            (StorageOpKind::CreateDir, "/data/gobai".to_string()),
            (StorageOpKind::CreateDir, "/data/gobai/content".to_string()),
            (StorageOpKind::SetOwnerOnly, "/data/gobai".to_string()),
            (StorageOpKind::SetOwnerOnly, "/data/gobai/content".to_string()),
        ]
    );
    assert_eq!(p.db, "/data/gobai/db.sqlite");
}

#[test]
fn failed_step_stops_and_names_its_path() {
    let mut calls = 0;
    let (result, ops) = drive("/data/gobai", |_| {
        calls += 1;
        if calls == 2 {
            Some(std::io::Error::new(std::io::ErrorKind::PermissionDenied, "denied"))
        } else {
            None
        }
    });
    assert_eq!(ops.len(), 2);
    match result {
        Err(StorageError::Io { path, source }) => {
            assert_eq!(path, "/data/gobai/content");
            assert_eq!(source.kind(), std::io::ErrorKind::PermissionDenied);
        }
        other => panic!("expected an Io error, got {other:?}"),
    }
}

#[test]
fn failure_of_last_step_names_content_dir() {
    let (result, ops) = drive("/r", |op| {
        if op.kind == StorageOpKind::SetOwnerOnly && op.path != "/r" {
            Some(std::io::Error::new(std::io::ErrorKind::Other, "chmod"))
        } else {
            None
        }
    });
    assert_eq!(ops.len(), 4);
    assert!(matches!(result, Err(StorageError::Io { ref path, .. }) if path == "/r/content"));
}

#[test]
fn root_with_trailing_separator_gets_no_double_separator() {
    let (result, _) = drive("/data/gobai/", |_| None);
    let p = result.unwrap();
    assert_eq!(p.content_dir, "/data/gobai/content");
    assert_eq!(p.db, "/data/gobai/db.sqlite");
}

#[test]
fn storage_state_keeps_error_text() {
    let state = StorageState(Err("no data dir".to_string()));
    assert_eq!(state.0.unwrap_err(), "no data dir");
}

#[test]
fn database_path_follows_storage_result() {
    let (result, _) = drive("/data/gobai", |_| None);
    let paths = result.unwrap();
    assert_eq!(gobai::database_path(&Ok(paths)), Ok("/data/gobai/db.sqlite".to_string()));
    assert_eq!(
        gobai::database_path(&Err("no dir".to_string())),
        Err("ストレージ未初期化: no dir".to_string())
    );
}

#[test]
fn storage_error_messages() {
    assert_eq!(
        StorageError::MissingDataDir.message(),
        "アプリのデータディレクトリを取得できませんでした"
    );
    let e = StorageError::Io {
        path: "/data/gobai".to_string(),
        source: std::io::Error::new(std::io::ErrorKind::Other, "disk full"),
    };
    assert_eq!(e.message(), "ストレージ初期化に失敗しました (/data/gobai): disk full");
}
