//! Settings-related data types: storage selection, theme, window chrome and
//! the synchronization records.

use vstd::prelude::*;

verus! {

/// Storage backend for snippets.
#[derive(Debug, Clone, Copy, PartialEq, Eq, Structural)]
pub enum StorageType {
    Local,
    Git,
    Cloud,
}

impl Default for StorageType {
    fn default() -> (r: Self)
        ensures
            r == StorageType::Local,
    {
        StorageType::Local
    }
}

/// Application theme.
#[derive(Debug, Clone, Copy, PartialEq, Eq, Structural)]
pub enum Theme {
    Light,
    Dark,
    System,
}

impl Default for Theme {
    fn default() -> (r: Self)
        ensures
            r == Theme::System,
    {
        Theme::System
    }
}

/// Window chrome preference for one platform: decoration, transparency and
/// shadow come as a bundle.
#[derive(Debug, Clone, Copy, PartialEq, Eq, Structural)]
pub enum WindowChrome {
    Native,
    Frameless,
    FramelessShadow,
}

impl Default for WindowChrome {
    fn default() -> (r: Self)
        ensures
            r == WindowChrome::Native,
    {
        WindowChrome::Native
    }
}

/// The process-wide per-platform chrome preferences, read whenever a surface
/// is created or refreshed.
#[derive(Debug, Clone, Copy, PartialEq, Eq, Structural)]
pub struct WindowChromeSettings {
    pub macos: WindowChrome,
    pub linux: WindowChrome,
    pub windows: WindowChrome,
}

impl Default for WindowChromeSettings {
    fn default() -> (r: Self)
        ensures
            r == (WindowChromeSettings {
                macos: WindowChrome::FramelessShadow,
                linux: WindowChrome::Frameless,
                windows: WindowChrome::Native,
            }),
    {
        WindowChromeSettings {
            macos: WindowChrome::FramelessShadow,
            linux: WindowChrome::Frameless,
            windows: WindowChrome::Native,
        }
    }
}

/// Conflict resolution strategy for sync operations.
#[derive(Debug, Clone, Copy, PartialEq, Eq, Structural)]
pub enum ConflictResolutionStrategy {
    LastWriteWins,
    KeepBoth,
    AskUser,
}

impl Default for ConflictResolutionStrategy {
    fn default() -> (r: Self)
        ensures
            r == ConflictResolutionStrategy::AskUser,
    {
        ConflictResolutionStrategy::AskUser
    }
}

/// Global keyboard shortcuts configuration.
#[derive(Debug, Clone)]
pub struct GlobalShortcuts {
    pub quick_add: String,
    pub search_select: String,
}

impl Default for GlobalShortcuts {
    fn default() -> (r: Self)
        ensures
            r.quick_add@ == "CommandOrControl+Shift+A"@,
            r.search_select@ == "CommandOrControl+Shift+S"@,
    {
        GlobalShortcuts {
            quick_add: "CommandOrControl+Shift+A".to_owned(),
            search_select: "CommandOrControl+Shift+S".to_owned(),
        }
    }
}

/// Privacy settings configuration.
#[derive(Debug, Clone, Copy, PartialEq, Eq, Structural)]
pub struct PrivacySettings {
    pub enable_analytics: bool,
    pub track_usage: bool,
}

impl Default for PrivacySettings {
    fn default() -> (r: Self)
        ensures
            r == (PrivacySettings { enable_analytics: true, track_usage: true }),
    {
        PrivacySettings { enable_analytics: true, track_usage: true }
    }
}

/// Cloud sync settings configuration.
#[derive(Debug, Clone, Copy, PartialEq, Eq, Structural)]
pub struct CloudSyncSettings {
    pub auto_sync_enabled: bool,
    pub sync_interval_minutes: u32,
    pub conflict_resolution: ConflictResolutionStrategy,
}

impl Default for CloudSyncSettings {
    fn default() -> (r: Self)
        ensures
            r == (CloudSyncSettings {
                auto_sync_enabled: false,
                sync_interval_minutes: 15u32,
                conflict_resolution: ConflictResolutionStrategy::AskUser,
            }),
    {
        CloudSyncSettings {
            auto_sync_enabled: false,
            sync_interval_minutes: 15,
            conflict_resolution: ConflictResolutionStrategy::AskUser,
        }
    }
}

/// Sync status information.
#[derive(Debug, Clone)]
pub struct SyncStatus {
    pub is_syncing: bool,
    pub last_sync_at: Option<i64>,
    pub error: Option<String>,
}

impl Default for SyncStatus {
    fn default() -> (r: Self)
        ensures
            r.is_syncing == false,
            r.last_sync_at is None,
            r.error is None,
    {
        SyncStatus { is_syncing: false, last_sync_at: None, error: None }
    }
}

/// Git sync result.
#[derive(Debug, Clone)]
pub struct GitSyncResult {
    pub success: bool,
    pub commits_pulled: usize,
    pub commits_pushed: usize,
    pub conflicts: Vec<String>,
    pub timestamp: i64,
}

/// Git status information.
#[derive(Debug, Clone)]
pub struct GitStatus {
    pub is_initialized: bool,
    pub branch: Option<String>,
    pub has_uncommitted_changes: bool,
    pub ahead: usize,
    pub behind: usize,
}

/// Cloud sync result.
#[derive(Debug, Clone)]
pub struct CloudSyncResult {
    pub pushed: usize,
    pub pulled: usize,
    pub conflicts: Vec<ConflictInfo>,
    pub timestamp: i64,
}

/// Conflict information.
#[derive(Debug, Clone)]
pub struct ConflictInfo {
    pub snippet_id: i64,
    pub snippet_name: String,
    pub conflict_type: String,
}

/// Cloud sync status.
#[derive(Debug, Clone)]
pub struct CloudSyncStatus {
    pub is_authenticated: bool,
    pub last_sync: Option<i64>,
    pub pending_changes: usize,
    pub sync_enabled: bool,
}

/// Cloud account information.
#[derive(Debug, Clone)]
pub struct CloudAccountInfo {
    pub email: String,
    pub created_at: i64,
    pub total_snippets: usize,
    pub storage_used_bytes: u64,
}

/// Authentication token.
#[derive(Debug, Clone)]
pub struct AuthToken {
    pub token: String,
    pub expires_at: i64,
}

} // verus!
