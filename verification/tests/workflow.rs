use vocabulary_builder::clock::{timestamp, timestamp_from};
use vocabulary_builder::storage::{next_migration_action, MigrationAction, MigrationEvent};

#[test]
fn the_clock_is_after_the_epoch() {
    assert!(timestamp().unwrap() > 1_600_000_000);
}

#[test]
fn migration_steps_in_order() {
    assert!(matches!(
        next_migration_action(MigrationEvent::Requested { is_absolute: true }),
        MigrationAction::PrepareDirectory
    ));
    assert!(matches!(
        next_migration_action(MigrationEvent::DirectoryPrepared { failure: None }),
        MigrationAction::InspectTarget
    ));
    assert!(matches!(
        next_migration_action(MigrationEvent::TargetInspected {
            is_current: false,
            target_exists: false
        }),
        MigrationAction::ReleaseRepository
    ));
    assert!(matches!(
        next_migration_action(MigrationEvent::RepositoryReleased { was_open: true }),
        MigrationAction::CopyDatabase
    ));
    assert!(matches!(
        next_migration_action(MigrationEvent::DatabaseCopied { failure: None }),
        MigrationAction::OpenTarget
    ));
    assert!(matches!(
        next_migration_action(MigrationEvent::TargetOpened { opened: true }),
        MigrationAction::SaveSetting
    ));
    assert!(matches!(
        next_migration_action(MigrationEvent::SettingSaved { saved: true }),
        MigrationAction::Commit
    ));
}

#[test]
fn migration_refusals_and_rollbacks() {
    match next_migration_action(MigrationEvent::Requested { is_absolute: false }) {
        MigrationAction::Finish(Err(m)) => assert_eq!(m, "Data directory must be an absolute path."),
        other => panic!("unexpected {other:?}"),
    }
    match next_migration_action(MigrationEvent::TargetInspected {
        is_current: true,
        target_exists: true,
    }) {
        MigrationAction::Finish(Ok(())) => {}
        other => panic!("unexpected {other:?}"),
    }
    match next_migration_action(MigrationEvent::TargetInspected {
        is_current: false,
        target_exists: true,
    }) {
        MigrationAction::Finish(Err(m)) => {
            assert_eq!(m, "The selected directory already contains vocabulary.db.")
        }
        other => panic!("unexpected {other:?}"),
    }
    match next_migration_action(MigrationEvent::DatabaseCopied {
        failure: Some("disk full".to_string()),
    }) {
        MigrationAction::RollBack { remove_target, message } => {
            assert!(!remove_target);
            assert_eq!(message, "Failed to copy vocabulary database: disk full");
        }
        other => panic!("unexpected {other:?}"),
    }
    match next_migration_action(MigrationEvent::SettingSaved { saved: false }) {
        MigrationAction::RollBack { remove_target, message } => {
            assert!(remove_target);
            assert_eq!(message, "Failed to save the data directory setting.");
        }
        other => panic!("unexpected {other:?}"),
    }
}

#[test]
fn a_clock_reading_becomes_its_seconds() {
    assert_eq!(timestamp_from(Some(1_700_000_000)), Ok(1_700_000_000));
    assert_eq!(timestamp_from(Some(0)), Ok(0));
}

#[test]
fn a_clock_before_the_epoch_is_an_error() {
    assert_eq!(
        timestamp_from(None),
        Err("System time is before the Unix epoch.".to_string())
    );
}
