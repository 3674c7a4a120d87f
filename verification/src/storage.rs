//! Moving the vocabulary database to another data directory.
//!
//! The caller does the file work and reports each outcome as an event;
//! `next_migration_action` decides what to do next. The database is switched
//! only after it was copied, the copy opened and the new setting saved; a
//! failure after the current database was closed rolls back to it.
use vstd::prelude::*;

verus! {

/// The file name of the database inside a data directory.
pub const DATABASE_FILE_NAME: &'static str = "vocabulary.db";

/// The file name of the data directory setting inside the configuration
/// directory.
pub const SETTINGS_FILE_NAME: &'static str = "storage-settings.json";

/// What the caller reports after each step of a migration.
#[derive(Clone, Debug)]
pub enum MigrationEvent {
    /// A directory was requested; whether its (trimmed) path is absolute.
    Requested { is_absolute: bool },
    /// The directory was created (with its parents) when missing, or it could
    /// not be, with the reason.
    DirectoryPrepared { failure: Option<String> },
    /// Whether the database already lives there, and whether the directory
    /// already holds a database file.
    TargetInspected { is_current: bool, target_exists: bool },
    /// The open database was closed; `false` when none was open.
    RepositoryReleased { was_open: bool },
    /// The database file was copied, or not, with the reason.
    DatabaseCopied { failure: Option<String> },
    /// Whether the copy opens as a vocabulary database.
    TargetOpened { opened: bool },
    /// Whether the new data directory setting was written.
    SettingSaved { saved: bool },
}

/// What the caller does next.
#[derive(Debug)]
pub enum MigrationAction {
    /// Create the directory and its parents.
    PrepareDirectory,
    /// Compare the target database path with the current one and look for an
    /// existing database file there.
    InspectTarget,
    /// Close the open database.
    ReleaseRepository,
    /// Copy the database file into the directory.
    CopyDatabase,
    /// Open the copy.
    OpenTarget,
    /// Write the new data directory setting.
    SaveSetting,
    /// Use the new database from now on, remove the old file, and report
    /// success.
    Commit,
    /// Report the outcome; nothing was changed.
    Finish(Result<(), String>),
    /// Drop the copy when `remove_target`, reopen the previous database, and
    /// report `message`.
    RollBack { remove_target: bool, message: String },
}

/// `prefix` followed by `detail`.
fn joined(prefix: &str, detail: &str) -> (r: String)
    ensures
        r@ == prefix@ + detail@,
{
    let mut message = prefix.to_string();
    message.append(detail);
    message
}

/// The next step of a migration after `event`.
pub fn next_migration_action(event: MigrationEvent) -> (r: MigrationAction)
    ensures
        match event {
            MigrationEvent::Requested { is_absolute } => if is_absolute {
                r is PrepareDirectory
            } else {
                r matches MigrationAction::Finish(Err(m)) && m@
                    == "Data directory must be an absolute path."@
            },
            MigrationEvent::DirectoryPrepared { failure } => match failure {
                None => r is InspectTarget,
                Some(reason) => r matches MigrationAction::Finish(Err(m)) && m@
                    == "Failed to create data directory: "@ + reason@,
            },
            MigrationEvent::TargetInspected { is_current, target_exists } => if is_current {
                r matches MigrationAction::Finish(Ok(()))
            } else if target_exists {
                r matches MigrationAction::Finish(Err(m)) && m@
                    == "The selected directory already contains vocabulary.db."@
            } else {
                r is ReleaseRepository
            },
            MigrationEvent::RepositoryReleased { was_open } => if was_open {
                r is CopyDatabase
            } else {
                r matches MigrationAction::Finish(Err(m)) && m@
                    == "Vocabulary database is temporarily unavailable."@
            },
            MigrationEvent::DatabaseCopied { failure } => match failure {
                None => r is OpenTarget,
                Some(reason) => r matches MigrationAction::RollBack { remove_target, message }
                    && !remove_target && message@ == "Failed to copy vocabulary database: "@
                    + reason@,
            },
            MigrationEvent::TargetOpened { opened } => if opened {
                r is SaveSetting
            } else {
                r matches MigrationAction::RollBack { remove_target, message } && remove_target
                    && message@ == "The copied vocabulary database could not be opened."@
            },
            MigrationEvent::SettingSaved { saved } => if saved {
                r is Commit
            } else {
                r matches MigrationAction::RollBack { remove_target, message } && remove_target
                    && message@ == "Failed to save the data directory setting."@
            },
        },
{
    match event {
        MigrationEvent::Requested { is_absolute } => {
            if is_absolute {
                MigrationAction::PrepareDirectory
            } else {
                MigrationAction::Finish(
                    Err("Data directory must be an absolute path.".to_string()),
                )
            }
        },
        MigrationEvent::DirectoryPrepared { failure } => match failure {
            None => MigrationAction::InspectTarget,
            Some(reason) => MigrationAction::Finish(
                Err(joined("Failed to create data directory: ", reason.as_str())),
            ),
        },
        MigrationEvent::TargetInspected { is_current, target_exists } => {
            if is_current {
                MigrationAction::Finish(Ok(()))
            } else if target_exists {
                MigrationAction::Finish(
                    Err("The selected directory already contains vocabulary.db.".to_string()),
                )
            } else {
                MigrationAction::ReleaseRepository
            }
        },
        MigrationEvent::RepositoryReleased { was_open } => {
            if was_open {
                MigrationAction::CopyDatabase
            } else {
                MigrationAction::Finish(
                    Err("Vocabulary database is temporarily unavailable.".to_string()),
                )
            }
        },
        MigrationEvent::DatabaseCopied { failure } => match failure {
            None => MigrationAction::OpenTarget,
            Some(reason) => MigrationAction::RollBack {
                remove_target: false,
                message: joined("Failed to copy vocabulary database: ", reason.as_str()),
            },
        },
        MigrationEvent::TargetOpened { opened } => {
            if opened {
                MigrationAction::SaveSetting
            } else {
                MigrationAction::RollBack {
                    remove_target: true,
                    message: "The copied vocabulary database could not be opened.".to_string(),
                }
            }
        },
        MigrationEvent::SettingSaved { saved } => {
            if saved {
                MigrationAction::Commit
            } else {
                MigrationAction::RollBack {
                    remove_target: true,
                    message: "Failed to save the data directory setting.".to_string(),
                }
            }
        },
    }
}

} // verus!
