//! Settings, storage layout, task-state history and status reporting for the
//! gobai desktop agent, with their rules stated as contracts.

pub mod clock;
pub mod db;
pub mod paths;
pub mod settings;
pub mod state_transition;
pub mod storage;
pub mod text;

use vstd::prelude::*;
use crate::settings::Settings;
use crate::storage::StoragePaths;

verus! {

/// Outcome of loading and checking the settings at startup, kept as a
/// `Result` so that a failure reaches the user interface instead of stopping
/// the application.
pub struct SettingsState(pub Result<Settings, String>);

/// Outcome of preparing the storage at startup, kept as a `Result` for the
/// same reason.
pub struct StorageState(pub Result<StoragePaths, String>);

/// Where the database is opened at startup: at the database path of the
/// prepared storage; when the storage could not be prepared there is no
/// database, and the message says why.
pub fn database_path(storage: &Result<StoragePaths, String>) -> (r: Result<String, String>)
    ensures
        match storage {
            Ok(paths) => r matches Ok(p) && p@ == paths.db@,
            Err(e) => r matches Err(m) && m@ == "ストレージ未初期化: "@ + e@,
        },
{
    match storage {
        Ok(paths) => Ok(paths.db.clone()),
        Err(e) => {
            let mut m = String::new();
            m.append("ストレージ未初期化: ");
            m.append(e.as_str());
            Err(m)
        },
    }
}

} // verus!
