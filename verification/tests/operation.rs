use ludusavi::operation::Operation;
use ludusavi::shared::{Error, Finality, SyncDirection};

fn names(list: &[&str]) -> Vec<String> {
    list.iter().map(|s| s.to_string()).collect()
}

#[test]
fn default_operation_is_idle() {
    let op = Operation::default();
    assert!(op.idle());
    assert_eq!(op, Operation::Idle);
}

#[test]
fn idle_queries() {
    let op = Operation::Idle;
    assert!(op.idle());
    assert!(op.preview());
    assert!(!op.full());
    assert_eq!(op.games(), None);
    assert_eq!(op.errors(), None);
    assert!(!op.is_cloud_active());
    assert!(!op.integrated_checking_cloud());
    assert!(!op.integrated_syncing_cloud());
    assert!(!op.should_sync_cloud_after());
    assert_eq!(op.cloud_changes(), 0);
}

#[test]
fn idle_is_inert() {
    let mut op = Operation::Idle;
    op.flag_cancel();
    op.push_error(Error::CloudConflict);
    op.update_integrated_cloud(Finality::Preview);
    op.update_integrated_cloud(Finality::Final);
    op.transition_from_cloud_step(false);
    op.add_cloud_change();
    assert_eq!(op, Operation::Idle);
}

#[test]
fn new_backup_fields() {
    let op = Operation::new_backup(Finality::Final, Some(names(&["a", "b"])));
    assert_eq!(
        op,
        Operation::Backup {
            finality: Finality::Final,
            cancelling: false,
            checking_cloud: false,
            syncing_cloud: false,
            should_sync_cloud_after: false,
            games: Some(names(&["a", "b"])),
            errors: vec![],
            cloud_changes: 0,
        }
    );
    assert!(!op.idle());
    assert!(!op.preview());
    assert!(!op.full());
    assert_eq!(op.games(), Some(names(&["a", "b"])));
    assert_eq!(op.errors(), Some(&vec![]));
    assert!(!op.is_cloud_active());
}

#[test]
fn new_restore_fields() {
    let op = Operation::new_restore(Finality::Preview, None);
    assert_eq!(
        op,
        Operation::Restore {
            finality: Finality::Preview,
            cancelling: false,
            checking_cloud: false,
            games: None,
            errors: vec![],
            cloud_changes: 0,
        }
    );
    assert!(op.preview());
    assert!(op.full());
    assert_eq!(op.games(), None);
}

#[test]
fn new_cloud_fields() {
    let op = Operation::new_cloud(SyncDirection::Upload, Finality::Final);
    assert_eq!(
        op,
        Operation::Cloud {
            direction: SyncDirection::Upload,
            finality: Finality::Final,
            cancelling: false,
            errors: vec![],
            cloud_changes: 0,
        }
    );
    assert!(op.full());
    assert!(!op.preview());
    assert!(op.is_cloud_active());
    assert!(!op.integrated_checking_cloud());
    assert!(!op.integrated_syncing_cloud());
    assert_eq!(op.games(), None);
}

#[test]
fn flag_cancel_is_idempotent() {
    let mut op = Operation::new_restore(Finality::Final, None);
    op.flag_cancel();
    let once = op.clone();
    op.flag_cancel();
    assert_eq!(op, once);
    match op {
        Operation::Restore { cancelling, .. } => assert!(cancelling),
        _ => panic!("kind changed"),
    }
}

#[test]
fn push_error_appends() {
    let mut op = Operation::new_cloud(SyncDirection::Download, Finality::Preview);
    op.push_error(Error::SomeEntriesFailed);
    op.push_error(Error::UnableToOpenUrl { url: "x".to_string() });
    assert_eq!(
        op.errors(),
        Some(&vec![Error::SomeEntriesFailed, Error::UnableToOpenUrl { url: "x".to_string() }])
    );
    assert_eq!(op.cloud_changes(), 0);
}

#[test]
fn add_cloud_change_counts() {
    let mut op = Operation::new_backup(Finality::Final, None);
    op.add_cloud_change();
    op.add_cloud_change();
    op.add_cloud_change();
    assert_eq!(op.cloud_changes(), 3);
    assert_eq!(op.errors(), Some(&vec![]));
}

#[test]
fn backup_preview_check_in_sync() {
    let mut op = Operation::new_backup(Finality::Final, None);
    op.update_integrated_cloud(Finality::Preview);
    assert!(op.is_cloud_active());
    assert!(op.integrated_checking_cloud());
    assert!(!op.integrated_syncing_cloud());
    op.transition_from_cloud_step(true);
    assert!(!op.is_cloud_active());
    assert!(op.should_sync_cloud_after());
    assert_eq!(op.errors(), Some(&vec![]));
}

#[test]
fn backup_check_conflict_records_error() {
    let mut op = Operation::new_backup(Finality::Final, None);
    op.update_integrated_cloud(Finality::Preview);
    op.transition_from_cloud_step(false);
    assert!(!op.should_sync_cloud_after());
    assert_eq!(op.errors(), Some(&vec![Error::CloudConflict]));
    assert!(!op.is_cloud_active());
}

#[test]
fn preview_backup_never_plans_sync() {
    let mut op = Operation::new_backup(Finality::Preview, None);
    op.update_integrated_cloud(Finality::Preview);
    op.transition_from_cloud_step(true);
    assert!(!op.should_sync_cloud_after());
    assert_eq!(op.errors(), Some(&vec![]));
}

#[test]
fn backup_final_sync_step() {
    let mut op = Operation::new_backup(Finality::Final, None);
    op.update_integrated_cloud(Finality::Final);
    assert!(op.integrated_syncing_cloud());
    assert!(!op.integrated_checking_cloud());
    assert!(op.is_cloud_active());
    op.transition_from_cloud_step(false);
    assert!(!op.integrated_syncing_cloud());
    assert!(!op.is_cloud_active());
    assert_eq!(op.errors(), Some(&vec![]));
}

#[test]
fn backup_check_then_sync_leaves_one_step_at_a_time() {
    let mut op = Operation::new_backup(Finality::Final, None);
    op.update_integrated_cloud(Finality::Preview);
    op.update_integrated_cloud(Finality::Final);
    op.transition_from_cloud_step(true);
    assert!(!op.integrated_checking_cloud());
    assert!(op.integrated_syncing_cloud());
    op.transition_from_cloud_step(true);
    assert!(!op.is_cloud_active());
}

#[test]
fn restore_cloud_steps() {
    let mut op = Operation::new_restore(Finality::Final, None);
    op.update_integrated_cloud(Finality::Final);
    assert!(!op.is_cloud_active());
    op.update_integrated_cloud(Finality::Preview);
    assert!(op.is_cloud_active());
    assert!(op.integrated_checking_cloud());
    assert!(!op.integrated_syncing_cloud());
    op.transition_from_cloud_step(false);
    assert!(!op.is_cloud_active());
    assert!(!op.should_sync_cloud_after());
    assert_eq!(op.errors(), Some(&vec![]));
}

#[test]
fn cloud_operation_ignores_integrated_steps() {
    let mut op = Operation::new_cloud(SyncDirection::Upload, Finality::Final);
    let before = op.clone();
    op.update_integrated_cloud(Finality::Preview);
    op.transition_from_cloud_step(false);
    assert_eq!(op, before);
}

#[test]
fn games_returns_a_copy() {
    let op = Operation::new_restore(Finality::Final, Some(names(&["x", "y", "z"])));
    let mut games = op.games().unwrap();
    games.push("w".to_string());
    assert_eq!(op.games(), Some(names(&["x", "y", "z"])));
}
