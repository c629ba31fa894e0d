//! The four named surfaces and the profile each one is created with.

use vstd::prelude::*;
use crate::strutil::str_eq;

verus! {

/// The surfaces the application manages. Each label identifies at most one
/// live surface at a time; a surface is created lazily on first use.
#[derive(Clone, Copy, PartialEq, Eq, Structural, Debug)]
pub enum WindowLabel {
    Search,
    QuickCapture,
    Settings,
    Management,
}

/// Default attribute bundle applied when a surface is created: it fixes
/// resizability, taskbar visibility and the always-on-top default.
#[derive(Clone, Copy, PartialEq, Eq, Structural, Debug)]
pub enum WindowProfile {
    Overlay,
    Dialog,
    Standard,
}

impl WindowLabel {
    /// The toolkit-level label string of this surface.
    pub open spec fn spec_str(self) -> Seq<char> {
        match self {
            WindowLabel::Search => "search"@,
            WindowLabel::QuickCapture => "quick-add"@,
            WindowLabel::Settings => "settings"@,
            WindowLabel::Management => "management"@,
        }
    }

    pub fn as_str(self) -> (r: &'static str)
        ensures
            r@ == self.spec_str(),
    {
        match self {
            WindowLabel::Search => "search",
            WindowLabel::QuickCapture => "quick-add",
            WindowLabel::Settings => "settings",
            WindowLabel::Management => "management",
        }
    }

    pub open spec fn spec_from_str(s: Seq<char>) -> Option<WindowLabel> {
        if s == "search"@ {
            Some(WindowLabel::Search)
        } else if s == "quick-add"@ {
            Some(WindowLabel::QuickCapture)
        } else if s == "settings"@ {
            Some(WindowLabel::Settings)
        } else if s == "management"@ {
            Some(WindowLabel::Management)
        } else {
            None
        }
    }

    /// Parses a toolkit label string back into a label.
    pub fn from_label_str(s: &str) -> (r: Option<WindowLabel>)
        ensures
            r == Self::spec_from_str(s@),
    {
        if str_eq(s, "search") {
            Some(WindowLabel::Search)
        } else if str_eq(s, "quick-add") {
            Some(WindowLabel::QuickCapture)
        } else if str_eq(s, "settings") {
            Some(WindowLabel::Settings)
        } else if str_eq(s, "management") {
            Some(WindowLabel::Management)
        } else {
            None
        }
    }

    /// The profile a surface of this label is created under.
    pub open spec fn spec_profile(self) -> WindowProfile {
        match self {
            WindowLabel::Search => WindowProfile::Overlay,
            WindowLabel::QuickCapture => WindowProfile::Dialog,
            WindowLabel::Settings => WindowProfile::Standard,
            WindowLabel::Management => WindowProfile::Standard,
        }
    }

    pub fn profile(self) -> (r: WindowProfile)
        ensures
            r == self.spec_profile(),
    {
        match self {
            WindowLabel::Search => WindowProfile::Overlay,
            WindowLabel::QuickCapture => WindowProfile::Dialog,
            WindowLabel::Settings => WindowProfile::Standard,
            WindowLabel::Management => WindowProfile::Standard,
        }
    }

    /// True for the labels whose profile takes its always-on-top default
    /// from the floating policy rather than a fixed value.
    pub open spec fn spec_on_top_follows_policy(self) -> bool {
        self == WindowLabel::Search || self == WindowLabel::QuickCapture
    }

    pub fn on_top_follows_policy(self) -> (r: bool)
        ensures
            r == self.spec_on_top_follows_policy(),
    {
        match self {
            WindowLabel::Search => true,
            WindowLabel::QuickCapture => true,
            WindowLabel::Settings => false,
            WindowLabel::Management => false,
        }
    }
}

} // verus!
