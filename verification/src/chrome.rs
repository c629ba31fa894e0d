//! Window chrome resolution and the per-label creation plan: everything a
//! toolkit needs to build one of the four surfaces.

use vstd::prelude::*;
use crate::compositor::{spec_should_float, QuickWindowPreferences, WindowManager};
use crate::labels::{WindowLabel, WindowProfile};
use crate::settings::{WindowChrome, WindowChromeSettings};

verus! {

/// The platform family the process runs on, selected once at startup.
#[derive(Debug, Clone, Copy, PartialEq, Eq, Structural)]
pub enum Platform {
    MacOs,
    Linux,
    Windows,
    OtherPlatform,
}

/// The chrome preference slot consulted on this platform; platforms outside
/// the three named ones fall back to native chrome.
pub open spec fn spec_chrome_preference(
    settings: WindowChromeSettings,
    platform: Platform,
) -> WindowChrome {
    match platform {
        Platform::MacOs => settings.macos,
        Platform::Linux => settings.linux,
        Platform::Windows => settings.windows,
        Platform::OtherPlatform => WindowChrome::Native,
    }
}

pub fn window_chrome_preference(settings: &WindowChromeSettings, platform: Platform) -> (r:
    WindowChrome)
    ensures
        r == spec_chrome_preference(*settings, platform),
{
    match platform {
        Platform::MacOs => settings.macos,
        Platform::Linux => settings.linux,
        Platform::Windows => settings.windows,
        Platform::OtherPlatform => WindowChrome::Native,
    }
}

/// The decoration, transparency and shadow flags each chrome preference
/// stands for.
pub open spec fn spec_chrome_flags(chrome: WindowChrome) -> (bool, bool, bool) {
    match chrome {
        WindowChrome::Native => (true, false, false),
        WindowChrome::Frameless => (false, true, false),
        WindowChrome::FramelessShadow => (false, true, true),
    }
}

/// Everything the toolkit is asked for when a surface is created: title,
/// size, centering, and the profile- and chrome-derived flags.
#[derive(Debug, Clone)]
pub struct WindowPlan {
    pub label: WindowLabel,
    pub title: &'static str,
    pub width: u32,
    pub height: u32,
    pub centered: bool,
    pub resizable: bool,
    pub skip_taskbar: bool,
    pub always_on_top: bool,
    pub decorations: bool,
    pub transparent: bool,
    pub shadow: bool,
}

/// The fixed per-label size table.
pub open spec fn spec_plan_size(label: WindowLabel) -> (u32, u32) {
    match label {
        WindowLabel::Search => (600u32, 400u32),
        WindowLabel::QuickCapture => (650u32, 700u32),
        WindowLabel::Settings => (1000u32, 700u32),
        WindowLabel::Management => (1000u32, 700u32),
    }
}

/// The fixed per-label title table.
pub open spec fn spec_plan_title(label: WindowLabel) -> Seq<char> {
    match label {
        WindowLabel::Search => "Snips"@,
        WindowLabel::QuickCapture => "Quick Add Snippet"@,
        WindowLabel::Settings => "Snips - Settings"@,
        WindowLabel::Management => "Snips - Management"@,
    }
}

/// A plan agrees with the label table, the profile defaults and the chrome
/// preference: overlays and dialogs are fixed-size, kept out of the taskbar
/// and take always-on-top from the floating policy; standard surfaces are
/// resizable, shown in the taskbar and never on top. Decoration flags come
/// from the chrome preference alone.
pub open spec fn spec_plan_matches(
    plan: WindowPlan,
    label: WindowLabel,
    should_float: bool,
    chrome: WindowChrome,
) -> bool {
    &&& plan.label == label
    &&& plan.title@ == spec_plan_title(label)
    &&& (plan.width, plan.height) == spec_plan_size(label)
    &&& plan.centered == true
    &&& plan.resizable == (label.spec_profile() == WindowProfile::Standard)
    &&& plan.skip_taskbar == (label.spec_profile() != WindowProfile::Standard)
    &&& plan.always_on_top == if label.spec_on_top_follows_policy() {
        should_float
    } else {
        false
    }
    &&& (plan.decorations, plan.transparent, plan.shadow) == spec_chrome_flags(chrome)
}

/// Builds the creation plan for one surface from the current chrome
/// settings, floating preferences and compositor classification.
pub fn plan_surface(
    label: WindowLabel,
    platform: Platform,
    chrome_settings: &WindowChromeSettings,
    preferences: &QuickWindowPreferences,
    window_manager: WindowManager,
) -> (plan: WindowPlan)
    ensures
        spec_plan_matches(
            plan,
            label,
            spec_should_float(preferences, window_manager),
            spec_chrome_preference(*chrome_settings, platform),
        ),
{
    let should_float = crate::compositor::quick_windows_should_float(preferences, window_manager);
    let chrome = window_chrome_preference(chrome_settings, platform);
    let (decorations, transparent, shadow) = match chrome {
        WindowChrome::Native => (true, false, false),
        WindowChrome::Frameless => (false, true, false),
        WindowChrome::FramelessShadow => (false, true, true),
    };
    let (width, height) = match label {
        WindowLabel::Search => (600u32, 400u32),
        WindowLabel::QuickCapture => (650u32, 700u32),
        WindowLabel::Settings => (1000u32, 700u32),
        WindowLabel::Management => (1000u32, 700u32),
    };
    let title = match label {
        WindowLabel::Search => "Snips",
        WindowLabel::QuickCapture => "Quick Add Snippet",
        WindowLabel::Settings => "Snips - Settings",
        WindowLabel::Management => "Snips - Management",
    };
    let profile = label.profile();
    let standard = matches!(profile, WindowProfile::Standard);
    let always_on_top = if label.on_top_follows_policy() {
        should_float
    } else {
        false
    };
    WindowPlan {
        label,
        title,
        width,
        height,
        centered: true,
        resizable: standard,
        skip_taskbar: !standard,
        always_on_top,
        decorations,
        transparent,
        shadow,
    }
}

} // verus!
