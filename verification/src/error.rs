//! Application error types. Each error carries a descriptive string; the
//! `message` methods render the same text the error would display.

use vstd::prelude::*;

verus! {

/// Application error taxonomy. Creation and validation failures are returned
/// to callers; compositor quirks are absorbed into diagnostics instead.
#[derive(Debug, Clone)]
pub enum AppError {
    Database(String),
    NotFound(String),
    InvalidInput(String),
    Validation(String),
    Duplicate(String),
    Serialization(String),
    TauriError(String),
    External(String),
    Unsupported(String),
    Unknown(String),
}

impl AppError {
    /// The display text of this error: a fixed prefix naming the category,
    /// then the carried detail.
    pub open spec fn spec_message(&self) -> Seq<char> {
        match self {
            AppError::Database(m) => "Database error: "@ + m@,
            AppError::NotFound(m) => "Not found: "@ + m@,
            AppError::InvalidInput(m) => "Invalid input: "@ + m@,
            AppError::Validation(m) => "Validation error: "@ + m@,
            AppError::Duplicate(m) => "Duplicate entry: "@ + m@,
            AppError::Serialization(m) => "Serialization error: "@ + m@,
            AppError::TauriError(m) => "Tauri error: "@ + m@,
            AppError::External(m) => "External process error: "@ + m@,
            AppError::Unsupported(m) => "Unsupported operation: "@ + m@,
            AppError::Unknown(m) => "Unknown error: "@ + m@,
        }
    }

    pub fn message(&self) -> (r: String)
        ensures
            r@ == self.spec_message(),
    {
        match self {
            AppError::Database(m) => {
                let mut s = "Database error: ".to_owned();
                s.append(m.as_str());
                s
            },
            AppError::NotFound(m) => {
                let mut s = "Not found: ".to_owned();
                s.append(m.as_str());
                s
            },
            AppError::InvalidInput(m) => {
                let mut s = "Invalid input: ".to_owned();
                s.append(m.as_str());
                s
            },
            AppError::Validation(m) => {
                let mut s = "Validation error: ".to_owned();
                s.append(m.as_str());
                s
            },
            AppError::Duplicate(m) => {
                let mut s = "Duplicate entry: ".to_owned();
                s.append(m.as_str());
                s
            },
            AppError::Serialization(m) => {
                let mut s = "Serialization error: ".to_owned();
                s.append(m.as_str());
                s
            },
            AppError::TauriError(m) => {
                let mut s = "Tauri error: ".to_owned();
                s.append(m.as_str());
                s
            },
            AppError::External(m) => {
                let mut s = "External process error: ".to_owned();
                s.append(m.as_str());
                s
            },
            AppError::Unsupported(m) => {
                let mut s = "Unsupported operation: ".to_owned();
                s.append(m.as_str());
                s
            },
            AppError::Unknown(m) => {
                let mut s = "Unknown error: ".to_owned();
                s.append(m.as_str());
                s
            },
        }
    }
}

/// An error that occurred while working with global shortcuts.
#[derive(Debug, Clone)]
pub enum ShortcutError {
    RegistrationFailed(String, String),
    UnregistrationFailed(String, String),
    AlreadyRegistered(String),
    InvalidFormat(String),
    TauriError(String),
}

impl ShortcutError {
    /// The display text of this error.
    pub open spec fn spec_message(&self) -> Seq<char> {
        match self {
            ShortcutError::RegistrationFailed(s, e) => "Failed to register shortcut '"@ + s@
                + "': "@ + e@,
            ShortcutError::UnregistrationFailed(s, e) => "Failed to unregister shortcut '"@ + s@
                + "': "@ + e@,
            ShortcutError::AlreadyRegistered(s) => "Shortcut '"@ + s@
                + "' is already registered by another application"@,
            ShortcutError::InvalidFormat(s) => "Invalid shortcut format: "@ + s@,
            ShortcutError::TauriError(s) => "Tauri error: "@ + s@,
        }
    }

    pub fn message(&self) -> (r: String)
        ensures
            r@ == self.spec_message(),
    {
        match self {
            ShortcutError::RegistrationFailed(s, e) => {
                let mut r = "Failed to register shortcut '".to_owned();
                r.append(s.as_str());
                r.append("': ");
                r.append(e.as_str());
                r
            },
            ShortcutError::UnregistrationFailed(s, e) => {
                let mut r = "Failed to unregister shortcut '".to_owned();
                r.append(s.as_str());
                r.append("': ");
                r.append(e.as_str());
                r
            },
            ShortcutError::AlreadyRegistered(s) => {
                let mut r = "Shortcut '".to_owned();
                r.append(s.as_str());
                r.append("' is already registered by another application");
                r
            },
            ShortcutError::InvalidFormat(s) => {
                let mut r = "Invalid shortcut format: ".to_owned();
                r.append(s.as_str());
                r
            },
            ShortcutError::TauriError(s) => {
                let mut r = "Tauri error: ".to_owned();
                r.append(s.as_str());
                r
            },
        }
    }
}

} // verus!
