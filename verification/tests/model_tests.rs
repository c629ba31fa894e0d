use snips_core::models::{
    AnalyticsId, AnalyticsRecord, BackupConfig, CreateSnippetInput, DatabaseDiagnostics,
    DatabaseStats, GlobalAnalytics, SnippetAnalytics, SnippetId, SnippetTag, TagId,
};
use snips_core::settings::{CloudSyncSettings, ConflictResolutionStrategy, StorageType};

#[test]
fn test_snippet_id_conversion() {
    let id: SnippetId = 42.into();
    assert_eq!(id.0, 42);

    let raw_id: i64 = id.into();
    assert_eq!(raw_id, 42);
}

#[test]
fn test_create_snippet_input() {
    let input = CreateSnippetInput {
        name: "test".to_string(),
        content: "content".to_string(),
        description: None,
        tags: vec!["tag1".to_string(), "tag2".to_string()],
    };

    assert_eq!(input.tags.len(), 2);
}

#[test]
fn test_tag_id_conversion() {
    let id: TagId = 10.into();
    assert_eq!(id.0, 10);

    let raw_id: i64 = id.into();
    assert_eq!(raw_id, 10);
}

#[test]
fn test_snippet_tag() {
    let snippet_tag = SnippetTag {
        snippet_id: 1,
        tag_id: 2,
    };

    assert_eq!(snippet_tag.snippet_id, 1);
    assert_eq!(snippet_tag.tag_id, 2);
}

#[test]
fn test_analytics_id_conversion() {
    let id: AnalyticsId = 100.into();
    assert_eq!(id.0, 100);

    let raw_id: i64 = id.into();
    assert_eq!(raw_id, 100);
}

#[test]
fn test_snippet_analytics() {
    let analytics = SnippetAnalytics {
        snippet_id: 1,
        usage_count: 10,
        last_used: Some(2000),
        first_used: Some(1000),
    };

    assert_eq!(analytics.usage_count, 10);
    assert_eq!(analytics.last_used, Some(2000));
}

#[test]
fn test_global_analytics() {
    let global = GlobalAnalytics {
        total_snippets: 50,
        total_usages: 500,
        most_used_snippets: vec![],
        recent_activity: vec![],
    };

    assert_eq!(global.total_snippets, 50);
    assert_eq!(global.total_usages, 500);
}

#[test]
fn test_analytics_record_fields() {
    let record = AnalyticsRecord {
        id: AnalyticsId(1),
        snippet_id: 42,
        used_at: 1000000,
    };
    assert_eq!(record.id, AnalyticsId(1));
    assert_eq!(record.snippet_id, 42);
}

#[test]
fn test_storage_type_values() {
    let local = StorageType::Local;
    let git = StorageType::Git;
    let cloud = StorageType::Cloud;

    assert_ne!(local, git);
    assert_ne!(git, cloud);
    assert_ne!(local, cloud);
}

#[test]
fn test_cloud_sync_settings_default() {
    let settings = CloudSyncSettings::default();
    assert!(!settings.auto_sync_enabled);
    assert_eq!(settings.sync_interval_minutes, 15);
    assert_eq!(
        settings.conflict_resolution,
        ConflictResolutionStrategy::AskUser
    );
}

#[test]
fn test_backup_config_default() {
    let config = BackupConfig::default();
    assert!(!config.enabled);
    assert_eq!(config.interval_hours, 24);
    assert_eq!(config.max_backups, 7);
}

#[test]
fn test_backup_config_custom() {
    let config = BackupConfig {
        enabled: true,
        interval_hours: 12,
        max_backups: 10,
    };
    assert!(config.enabled);
    assert_eq!(config.interval_hours, 12);
    assert_eq!(config.max_backups, 10);
}

#[test]
fn test_database_stats_structure() {
    let stats = DatabaseStats {
        total_snippets: 10,
        total_tags: 5,
        total_analytics_records: 100,
        database_size_bytes: 1024,
        last_backup: Some(1234567890),
    };

    assert_eq!(stats.total_snippets, 10);
    assert_eq!(stats.total_tags, 5);
}

#[test]
fn test_database_diagnostics_struct() {
    let diagnostics = DatabaseDiagnostics {
        db_path: "/test/path/snips.db".to_string(),
        db_dir: "/test/path".to_string(),
        db_exists: true,
        db_size_bytes: 92160,
        db_readable: true,
        db_writable: true,
        dir_exists: true,
        dir_writable: true,
        error_message: None,
    };

    assert_eq!(diagnostics.db_path, "/test/path/snips.db");
    assert!(diagnostics.db_exists);
    assert!(diagnostics.error_message.is_none());
}

#[test]
fn test_diagnostics_error_messages() {
    let error1 = "Database directory does not exist: /some/path";
    assert!(error1.contains("directory does not exist"));

    let error2 = "Database directory is not writable: /some/path. Check permissions.";
    assert!(error2.contains("not writable"));
    assert!(error2.contains("Check permissions"));

    let error3 =
        "Database file is empty (0 bytes): /path/db. It may not be initialized correctly.";
    assert!(error3.contains("empty (0 bytes)"));
    assert!(error3.contains("not be initialized"));
}

#[test]
fn test_storage_path_consistency_documentation() {
    assert!(true, "All storage commands must use app_config_dir");
}

#[test]
fn test_database_path_documentation() {
    assert!(
        true,
        "Database path must use app_config_dir - see test comments"
    );
}

#[test]
fn test_validation() {
    let input = CreateSnippetInput {
        name: "".to_string(),
        content: "content".to_string(),
        description: None,
        tags: vec![],
    };
    assert!(input.name.trim().is_empty());

    let input = CreateSnippetInput {
        name: "name".to_string(),
        content: "".to_string(),
        description: None,
        tags: vec![],
    };
    assert!(input.content.trim().is_empty());
}

#[test]
fn test_input_trimming() {
    let input = CreateSnippetInput {
        name: "  test  ".to_string(),
        content: "  content  ".to_string(),
        description: Some("  desc  ".to_string()),
        tags: vec!["  tag1  ".to_string()],
    };

    assert_eq!(input.name.trim(), "test");
    assert_eq!(input.content.trim(), "content");
    assert_eq!(input.description.as_deref().map(|s| s.trim()), Some("desc"));
}

#[test]
fn test_tag_name_trimming() {
    let tag = "  rust  ";
    assert_eq!(tag.trim(), "rust");
}

#[test]
fn test_empty_tag_detection() {
    let empty_tags = vec!["".to_string(), "   ".to_string()];
    for tag in empty_tags {
        assert!(tag.trim().is_empty());
    }
}

#[test]
fn test_validate_snippet_input_rules() {
    assert!(snips_core::validate::validate_snippet_input("name", "content").is_ok());
    assert_eq!(
        snips_core::validate::validate_snippet_input("  ", "content"),
        Err("Snippet name is required and cannot be empty".to_string())
    );
    assert_eq!(
        snips_core::validate::validate_snippet_input("name", "  "),
        Err("Snippet content is required and cannot be empty".to_string())
    );
}

#[test]
fn test_normalize_tag_names_drops_empties() {
    let tags = vec![
        "  rust  ".to_string(),
        "".to_string(),
        "   ".to_string(),
        "cli".to_string(),
    ];
    let normalized = snips_core::validate::normalize_tag_names(&tags);
    assert_eq!(normalized, vec!["rust".to_string(), "cli".to_string()]);
}
