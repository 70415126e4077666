use cs_core::local_store::schema::{
    migrations, plan_bodies_batch, plan_migrations, MAX_BATCH_PARAMS, Conversation, MessageKind, StorageBackend, LATEST_USER_VERSION, MIGRATION_V2_SQL, SCHEMA_SQL,
};
use cs_core::local_store::state_machines::{ArchiveState, BodyState, MediaState};
use cs_core::config::ArchiveBackend;

#[test]
fn test_body_state_transitions() {
    let s = BodyState::DeliveryStoreOnly;
    assert!(s.try_transition(BodyState::LocalPlainAvailable).is_ok());
    assert!(s.try_transition(BodyState::DeletedForEveryone).is_ok());
    assert!(s.try_transition(BodyState::Unavailable).is_ok());
    let d = BodyState::DeletedForEveryone;
    assert!(d.try_transition(BodyState::LocalPlainAvailable).is_err());
}

#[test]
fn test_body_state_self_transition() {
    let s = BodyState::LocalPlainAvailable;
    assert!(s.try_transition(BodyState::LocalPlainAvailable).is_ok());
}

#[test]
fn test_media_state_transitions() {
    let s = MediaState::ThumbnailOnly;
    assert!(s.try_transition(MediaState::OriginalLocal).is_ok());
    assert!(s.try_transition(MediaState::DownloadInProgress).is_ok());
    assert!(s.try_transition(MediaState::Deleted).is_ok());
}

#[test]
fn test_archive_state_transitions() {
    let s = ArchiveState::NotArchived;
    assert!(s.try_transition(ArchiveState::Archiving).is_ok());
    assert!(s.try_transition(ArchiveState::Archived).is_err());
}

#[test]
fn test_state_display_roundtrip() {
    let s = BodyState::LocalPlainAvailable;
    let str = s.to_string();
    let parsed: BodyState = str.parse().unwrap();
    assert_eq!(s, parsed);
}

#[test]
fn unknown_state_name_is_refused() {
    assert!("local".parse::<BodyState>().is_err());
    assert_eq!("archiving".parse::<ArchiveState>().unwrap(), ArchiveState::Archiving);
}

#[test]
fn message_kind_parse_defaults_to_text() {
    assert_eq!(MessageKind::parse("media"), MessageKind::Media);
    assert_eq!(MessageKind::parse("system"), MessageKind::System);
    assert_eq!(MessageKind::parse("text"), MessageKind::Text);
    assert_eq!(MessageKind::parse("anything"), MessageKind::Text);
    assert_eq!(MessageKind::Media.as_str(), "media");
}

#[test]
fn storage_backend_names_round_trip() {
    assert_eq!(StorageBackend::parse("kchat_backend").unwrap(), StorageBackend::KChatBackend);
    assert_eq!("zk_object_fabric".parse::<StorageBackend>().unwrap(), StorageBackend::ZkObjectFabric);
    assert_eq!(StorageBackend::parse("s3").unwrap_err(), "invalid storage_backend value: \"s3\"");
    assert_eq!(StorageBackend::ZkObjectFabric.to_string(), "zk_object_fabric");
    assert_eq!(StorageBackend::default(), StorageBackend::KChatBackend);
    assert_eq!(StorageBackend::from(ArchiveBackend::Zkof), StorageBackend::ZkObjectFabric);
}

#[test]
fn legacy_conversation_fills_later_columns_with_defaults() {
    let c = Conversation::legacy("c1", None, true, false, Some("m9".to_string()), 42);
    assert_eq!(c.conversation_id, "c1");
    assert!(c.pinned);
    assert_eq!(c.last_activity_ms, 42);
    assert_eq!(c.conversation_type, "dm");
    assert_eq!(c.scope, "b2c");
    assert_eq!(c.tenant_id, "");
    assert_eq!(Conversation::default().last_activity_ms, 0);
}

#[test]
fn fresh_database_runs_every_migration_then_records_latest() {
    let plan = plan_migrations(0);
    let targets: Vec<i32> = plan.steps.iter().map(|s| s.target_version).collect();
    assert_eq!(targets, vec![1, 2, 3, 4, 5]);
    assert_eq!(plan.steps[0].sql, SCHEMA_SQL);
    assert_eq!(plan.steps[1].error_from, 1);
    assert!(plan.steps.iter().all(|s| !s.set_user_version_after));
    assert_eq!(plan.final_user_version, Some(LATEST_USER_VERSION));
}

#[test]
fn older_database_runs_only_pending_migrations() {
    let plan = plan_migrations(1);
    let targets: Vec<i32> = plan.steps.iter().map(|s| s.target_version).collect();
    assert_eq!(targets, vec![2, 3, 4, 5]);
    assert_eq!(plan.steps[0].sql, MIGRATION_V2_SQL);
    assert!(plan.steps.iter().all(|s| s.error_from == 1 && s.set_user_version_after));
    assert_eq!(plan.final_user_version, None);
    assert!(plan_migrations(5).steps.is_empty());
    assert!(plan_migrations(9).steps.is_empty());
    assert_eq!(plan_migrations(-1).steps.len(), 5);
    assert_eq!(plan_migrations(-1).steps[0].error_from, u32::MAX);
    assert_eq!(migrations().len(), 5);
}

#[test]
fn bodies_batch_plan_guards_the_parameter_limit() {
    assert_eq!(plan_bodies_batch(0), Ok(None));
    assert_eq!(
        plan_bodies_batch(3),
        Ok(Some("SELECT message_id, text_content FROM message_body WHERE message_id IN (?, ?, ?)".to_string()))
    );
    assert_eq!(
        plan_bodies_batch(1),
        Ok(Some("SELECT message_id, text_content FROM message_body WHERE message_id IN (?)".to_string()))
    );
    assert!(plan_bodies_batch(MAX_BATCH_PARAMS).unwrap().is_some());
    assert_eq!(plan_bodies_batch(901), Err("batch size 901 exceeds SQLite parameter limit".to_string()));
}
