//! Data model records: snippets, tags, usage analytics, storage metadata and
//! theme palettes.

use vstd::prelude::*;

verus! {

/// Newtype wrapper for snippet IDs to prevent type confusion.
#[derive(Debug, Clone, Copy, PartialEq, Eq, Structural, Hash)]
pub struct SnippetId(pub i64);

impl From<i64> for SnippetId {
    fn from(id: i64) -> (r: Self) {
        SnippetId(id)
    }
}

impl vstd::std_specs::convert::FromSpecImpl<i64> for SnippetId {
    open spec fn obeys_from_spec() -> bool {
        true
    }

    open spec fn from_spec(id: i64) -> Self {
        SnippetId(id)
    }
}

impl From<SnippetId> for i64 {
    fn from(id: SnippetId) -> (r: Self) {
        id.0
    }
}

impl vstd::std_specs::convert::FromSpecImpl<SnippetId> for i64 {
    open spec fn obeys_from_spec() -> bool {
        true
    }

    open spec fn from_spec(id: SnippetId) -> Self {
        id.0
    }
}

/// A text snippet as stored by the persistence collaborator.
#[derive(Debug, Clone)]
pub struct Snippet {
    pub id: SnippetId,
    pub name: String,
    pub content: String,
    pub description: Option<String>,
    pub created_at: i64,
    pub updated_at: i64,
    pub tags: Option<Vec<String>>,
}

/// Input data for creating a new snippet.
#[derive(Debug, Clone)]
pub struct CreateSnippetInput {
    pub name: String,
    pub content: String,
    pub description: Option<String>,
    pub tags: Vec<String>,
}

/// Input data for updating an existing snippet.
#[derive(Debug, Clone)]
pub struct UpdateSnippetInput {
    pub name: String,
    pub content: String,
    pub description: Option<String>,
    pub tags: Vec<String>,
}

/// Newtype wrapper for tag IDs to prevent type confusion.
#[derive(Debug, Clone, Copy, PartialEq, Eq, Structural, Hash)]
pub struct TagId(pub i64);

impl From<i64> for TagId {
    fn from(id: i64) -> (r: Self) {
        TagId(id)
    }
}

impl vstd::std_specs::convert::FromSpecImpl<i64> for TagId {
    open spec fn obeys_from_spec() -> bool {
        true
    }

    open spec fn from_spec(id: i64) -> Self {
        TagId(id)
    }
}

impl From<TagId> for i64 {
    fn from(id: TagId) -> (r: Self) {
        id.0
    }
}

impl vstd::std_specs::convert::FromSpecImpl<TagId> for i64 {
    open spec fn obeys_from_spec() -> bool {
        true
    }

    open spec fn from_spec(id: TagId) -> Self {
        id.0
    }
}

/// A tag that can be associated with snippets.
#[derive(Debug, Clone)]
pub struct Tag {
    pub id: TagId,
    pub name: String,
}

/// Association between a snippet and a tag.
#[derive(Debug, Clone)]
pub struct SnippetTag {
    pub snippet_id: i64,
    pub tag_id: i64,
}

/// Newtype wrapper for analytics record IDs.
#[derive(Debug, Clone, Copy, PartialEq, Eq, Structural, Hash)]
pub struct AnalyticsId(pub i64);

impl From<i64> for AnalyticsId {
    fn from(id: i64) -> (r: Self) {
        AnalyticsId(id)
    }
}

impl vstd::std_specs::convert::FromSpecImpl<i64> for AnalyticsId {
    open spec fn obeys_from_spec() -> bool {
        true
    }

    open spec fn from_spec(id: i64) -> Self {
        AnalyticsId(id)
    }
}

impl From<AnalyticsId> for i64 {
    fn from(id: AnalyticsId) -> (r: Self) {
        id.0
    }
}

impl vstd::std_specs::convert::FromSpecImpl<AnalyticsId> for i64 {
    open spec fn obeys_from_spec() -> bool {
        true
    }

    open spec fn from_spec(id: AnalyticsId) -> Self {
        id.0
    }
}

/// A single usage event for a snippet.
#[derive(Debug, Clone)]
pub struct AnalyticsRecord {
    pub id: AnalyticsId,
    pub snippet_id: i64,
    pub used_at: i64,
}

/// Analytics data for a specific snippet.
#[derive(Debug, Clone)]
pub struct SnippetAnalytics {
    pub snippet_id: i64,
    pub usage_count: i64,
    pub last_used: Option<i64>,
    pub first_used: Option<i64>,
}

/// Global analytics aggregated across all snippets.
#[derive(Debug, Clone)]
pub struct GlobalAnalytics {
    pub total_snippets: i64,
    pub total_usages: i64,
    pub most_used_snippets: Vec<MostUsedSnippet>,
    pub recent_activity: Vec<RecentActivity>,
}

/// Information about most frequently used snippets.
#[derive(Debug, Clone)]
pub struct MostUsedSnippet {
    pub snippet_id: i64,
    pub snippet_name: String,
    pub usage_count: i64,
    pub last_used: Option<i64>,
}

/// Recent usage activity across all snippets.
#[derive(Debug, Clone)]
pub struct RecentActivity {
    pub snippet_id: i64,
    pub snippet_name: String,
    pub used_at: i64,
}

/// Database statistics.
#[derive(Debug, Clone)]
pub struct DatabaseStats {
    pub total_snippets: i64,
    pub total_tags: i64,
    pub total_analytics_records: i64,
    pub database_size_bytes: u64,
    pub last_backup: Option<i64>,
}

/// Backup metadata.
#[derive(Debug, Clone)]
pub struct BackupInfo {
    pub path: String,
    pub created_at: i64,
    pub size_bytes: u64,
}

/// Export data structure for the JSON interchange format.
#[derive(Debug, Clone)]
pub struct ExportData {
    pub version: String,
    pub exported_at: i64,
    pub snippets: Vec<SnippetExport>,
}

/// A snippet with its tags, as carried by an export.
#[derive(Debug, Clone)]
pub struct SnippetExport {
    pub name: String,
    pub content: String,
    pub description: Option<String>,
    pub tags: Vec<String>,
    pub created_at: i64,
    pub updated_at: i64,
}

/// Diagnostic information about database location and status.
#[derive(Debug, Clone)]
pub struct DatabaseDiagnostics {
    pub db_path: String,
    pub db_dir: String,
    pub db_exists: bool,
    pub db_size_bytes: u64,
    pub db_readable: bool,
    pub db_writable: bool,
    pub dir_exists: bool,
    pub dir_writable: bool,
    pub error_message: Option<String>,
}

/// Backup scheduler configuration.
#[derive(Debug, Clone, Copy, PartialEq, Eq, Structural)]
pub struct BackupConfig {
    /// Whether automatic backups are enabled.
    pub enabled: bool,
    /// Interval between backups in hours.
    pub interval_hours: u64,
    /// Maximum number of backups to keep (0 = unlimited).
    pub max_backups: usize,
}

impl Default for BackupConfig {
    fn default() -> (r: Self)
        ensures
            r == (BackupConfig { enabled: false, interval_hours: 24u64, max_backups: 7usize }),
    {
        BackupConfig { enabled: false, interval_hours: 24, max_backups: 7 }
    }
}

/// Information about a registered global shortcut.
#[derive(Debug, Clone)]
pub struct ShortcutInfo {
    /// The shortcut key combination.
    pub shortcut: String,
    /// A human-readable description of what the shortcut does.
    pub description: String,
    /// Whether this is a default (built-in) shortcut.
    pub is_default: bool,
}

/// A color palette imported from a desktop theme: named colors with the
/// light/dark classification and optional icon theme and wallpaper paths.
#[derive(Debug, Clone)]
pub struct ThemePalette {
    pub name: String,
    pub colors: Vec<(String, String)>,
    pub is_light: bool,
    pub icon_theme: Option<String>,
    pub wallpaper: Option<String>,
}

} // verus!
