//! The window lifecycle and focus-coordination state: per-surface
//! expectation maps, focus metrics, counters, the quick-capture slot, and
//! the reconciled diagnostics built from them.
//!
//! The service owns every decision; the caller performs the toolkit
//! requests (create, show, hide, focus) and reports their outcomes back.

use vstd::prelude::*;
use crate::chrome::{plan_surface, spec_chrome_preference, spec_plan_matches, Platform, WindowPlan};
use crate::compositor::{
    normalize_quick_window_preferences, quick_windows_should_float, spec_should_float,
    window_manager_label, QuickWindowPreferences, WindowManager,
};
use crate::focus::FocusResult;
use crate::labels::WindowLabel;
use crate::metrics::{
    focus_counts, record_window_focus, spec_counts_bumped, spec_result_label, FocusMetrics,
};
use crate::settings::WindowChromeSettings;

verus! {

/// A total map from the four surface labels to optional values: the shape of
/// every per-surface table the service keeps.
#[derive(Debug, Clone, Copy, PartialEq, Eq, Structural)]
pub struct LabelMap<T> {
    pub search: Option<T>,
    pub quick_capture: Option<T>,
    pub settings: Option<T>,
    pub management: Option<T>,
}

impl<T: Copy> LabelMap<T> {
    pub open spec fn spec_get(self, label: WindowLabel) -> Option<T> {
        match label {
            WindowLabel::Search => self.search,
            WindowLabel::QuickCapture => self.quick_capture,
            WindowLabel::Settings => self.settings,
            WindowLabel::Management => self.management,
        }
    }

    /// How many labels hold an entry.
    pub open spec fn spec_count(self) -> int {
        (if self.search is Some {
            1int
        } else {
            0int
        }) + (if self.quick_capture is Some {
            1int
        } else {
            0int
        }) + (if self.settings is Some {
            1int
        } else {
            0int
        }) + (if self.management is Some {
            1int
        } else {
            0int
        })
    }

    pub fn new() -> (r: Self)
        ensures
            forall|l: WindowLabel| r.spec_get(l) is None,
            r.spec_count() == 0,
    {
        LabelMap { search: None, quick_capture: None, settings: None, management: None }
    }

    pub fn get(&self, label: WindowLabel) -> (r: Option<T>)
        ensures
            r == self.spec_get(label),
    {
        match label {
            WindowLabel::Search => self.search,
            WindowLabel::QuickCapture => self.quick_capture,
            WindowLabel::Settings => self.settings,
            WindowLabel::Management => self.management,
        }
    }

    /// The map with one entry replaced.
    pub open spec fn spec_set(self, label: WindowLabel, value: T) -> Self {
        match label {
            WindowLabel::Search => LabelMap { search: Some(value), ..self },
            WindowLabel::QuickCapture => LabelMap { quick_capture: Some(value), ..self },
            WindowLabel::Settings => LabelMap { settings: Some(value), ..self },
            WindowLabel::Management => LabelMap { management: Some(value), ..self },
        }
    }

    pub fn set(&mut self, label: WindowLabel, value: T)
        ensures
            *final(self) == old(self).spec_set(label, value),
            final(self).spec_get(label) == Some(value),
            forall|l: WindowLabel|
                l != label ==> #[trigger] final(self).spec_get(l) == old(self).spec_get(l),
    {
        match label {
            WindowLabel::Search => self.search = Some(value),
            WindowLabel::QuickCapture => self.quick_capture = Some(value),
            WindowLabel::Settings => self.settings = Some(value),
            WindowLabel::Management => self.management = Some(value),
        }
    }

    /// The map with one entry cleared.
    pub open spec fn spec_removed(self, label: WindowLabel) -> Self {
        match label {
            WindowLabel::Search => LabelMap { search: None, ..self },
            WindowLabel::QuickCapture => LabelMap { quick_capture: None, ..self },
            WindowLabel::Settings => LabelMap { settings: None, ..self },
            WindowLabel::Management => LabelMap { management: None, ..self },
        }
    }

    /// Removes and returns the entry for `label`, if any.
    pub fn remove(&mut self, label: WindowLabel) -> (r: Option<T>)
        ensures
            *final(self) == old(self).spec_removed(label),
            r == old(self).spec_get(label),
            final(self).spec_get(label) is None,
            forall|l: WindowLabel|
                l != label ==> #[trigger] final(self).spec_get(l) == old(self).spec_get(l),
    {
        match label {
            WindowLabel::Search => {
                let r = self.search;
                self.search = None;
                r
            },
            WindowLabel::QuickCapture => {
                let r = self.quick_capture;
                self.quick_capture = None;
                r
            },
            WindowLabel::Settings => {
                let r = self.settings;
                self.settings = None;
                r
            },
            WindowLabel::Management => {
                let r = self.management;
                self.management = None;
                r
            },
        }
    }

    pub fn clear(&mut self)
        ensures
            forall|l: WindowLabel| #[trigger] final(self).spec_get(l) is None,
    {
        self.search = None;
        self.quick_capture = None;
        self.settings = None;
        self.management = None;
    }

    pub fn count(&self) -> (r: usize)
        ensures
            r == self.spec_count(),
    {
        let mut n: usize = 0;
        if self.search.is_some() {
            n = n + 1;
        }
        if self.quick_capture.is_some() {
            n = n + 1;
        }
        if self.settings.is_some() {
            n = n + 1;
        }
        if self.management.is_some() {
            n = n + 1;
        }
        n
    }
}

/// Monotonically increasing per-label focus counters.
#[derive(Debug, Clone, Copy, PartialEq, Eq, Structural)]
pub struct WindowCounters {
    pub focus_success_total: u64,
    pub focus_failure_total: u64,
}

impl Default for WindowCounters {
    fn default() -> (r: Self)
        ensures
            r == (WindowCounters { focus_success_total: 0u64, focus_failure_total: 0u64 }),
    {
        WindowCounters { focus_success_total: 0, focus_failure_total: 0 }
    }
}

/// The counters after one more recorded outcome: the matching total moves up
/// by one, saturating; the other stays.
pub open spec fn spec_bump_counters(before: Option<WindowCounters>, success: bool) -> WindowCounters {
    let c = match before {
        Some(c) => c,
        None => WindowCounters { focus_success_total: 0u64, focus_failure_total: 0u64 },
    };
    if success {
        WindowCounters {
            focus_success_total: if c.focus_success_total == u64::MAX {
                u64::MAX
            } else {
                (c.focus_success_total + 1) as u64
            },
            focus_failure_total: c.focus_failure_total,
        }
    } else {
        WindowCounters {
            focus_success_total: c.focus_success_total,
            focus_failure_total: if c.focus_failure_total == u64::MAX {
                u64::MAX
            } else {
                (c.focus_failure_total + 1) as u64
            },
        }
    }
}

/// The per-label focus counters are monotone: recording one more outcome
/// never lowers either total.
pub proof fn lemma_counters_monotone(before: WindowCounters, success: bool)
    ensures
        spec_bump_counters(Some(before), success).focus_success_total
            >= before.focus_success_total,
        spec_bump_counters(Some(before), success).focus_failure_total
            >= before.focus_failure_total,
{
}

/// What the toolkit reports of one live surface when diagnostics are
/// collected; `None` where the query returned no answer.
#[derive(Debug, Clone, Copy)]
pub struct RawWindowState {
    pub label: WindowLabel,
    pub is_visible: Option<bool>,
    pub is_focused: Option<bool>,
    pub is_decorated: Option<bool>,
    pub always_on_top: Option<bool>,
    pub position: Option<(i32, i32)>,
    pub size: Option<(u32, u32)>,
}

/// One reconciled diagnostic record per live surface.
#[derive(Debug, Clone)]
pub struct WindowDiagnostic {
    pub label: String,
    pub is_visible: Option<bool>,
    pub is_focused: Option<bool>,
    pub decorations: bool,
    pub always_on_top: bool,
    pub skip_taskbar: bool,
    pub position: Option<(i32, i32)>,
    pub size: Option<(u32, u32)>,
    pub visibility_expected: Option<bool>,
    pub always_on_top_expected: Option<bool>,
    pub focus_attempts: Option<usize>,
    pub focus_success: Option<bool>,
    pub focus_success_total: Option<u64>,
    pub focus_failure_total: Option<u64>,
}

/// The visibility reconciliation rule: prefer the live query; substitute the
/// tracked expectation only when the query gave no answer, or when the
/// override flag is set and the two disagree.
pub open spec fn spec_reconcile_visibility(
    raw: Option<bool>,
    expected: Option<bool>,
    assume_expected: bool,
) -> Option<bool> {
    if raw is Some {
        if assume_expected && expected is Some && raw->0 != expected->0 {
            expected
        } else {
            raw
        }
    } else {
        expected
    }
}

pub fn reconcile_visibility(raw: Option<bool>, expected: Option<bool>, assume_expected: bool) -> (r:
    Option<bool>)
    ensures
        r == spec_reconcile_visibility(raw, expected, assume_expected),
{
    match (raw, expected) {
        (Some(actual), Some(exp)) => if assume_expected && actual != exp {
            Some(exp)
        } else {
            Some(actual)
        },
        (Some(actual), None) => Some(actual),
        (None, exp) => exp,
    }
}

/// The always-on-top reconciliation rule: as for visibility, except that a
/// surface with neither answer nor expectation reports `false`.
pub open spec fn spec_reconcile_on_top(
    raw: Option<bool>,
    expected: Option<bool>,
    assume_expected: bool,
) -> bool {
    if raw is Some {
        if assume_expected && expected is Some && raw->0 != expected->0 {
            expected->0
        } else {
            raw->0
        }
    } else if expected is Some {
        expected->0
    } else {
        false
    }
}

pub fn reconcile_on_top(raw: Option<bool>, expected: Option<bool>, assume_expected: bool) -> (r:
    bool)
    ensures
        r == spec_reconcile_on_top(raw, expected, assume_expected),
{
    match (raw, expected) {
        (Some(actual), Some(exp)) => if assume_expected && actual != exp {
            exp
        } else {
            actual
        },
        (Some(actual), None) => actual,
        (None, Some(exp)) => exp,
        (None, None) => false,
    }
}

/// A surface counts as effectively visible only when the toolkit reports it
/// visible and the tracked expectation (defaulting to the report) agrees:
/// this treats a surface as hidden when a hide fell back to closing it and
/// the compositor still reports stale visibility.
pub open spec fn spec_effective_visible(actual: Option<bool>, expected: Option<bool>) -> bool {
    let a = if actual is Some {
        actual->0
    } else {
        false
    };
    let e = if expected is Some {
        expected->0
    } else {
        a
    };
    if a && !e {
        false
    } else {
        a
    }
}

/// The tracked visibility expectation after one toggle: a toggle hides an
/// effectively visible surface and shows any other.
pub open spec fn spec_toggle_next_expected(
    actual: Option<bool>,
    expected: Option<bool>,
) -> Option<bool> {
    if spec_effective_visible(actual, expected) {
        Some(false)
    } else {
        Some(true)
    }
}

/// Toggling a freshly created surface twice ends with the surface hidden:
/// creation seeds the visibility expectation to false, so the first toggle
/// shows, and the second—once the surface reports itself visible—hides.
pub proof fn lemma_toggle_twice_ends_hidden(first_raw: Option<bool>, second_raw: Option<bool>)
    requires
        second_raw == Some(true),
    ensures
        spec_toggle_next_expected(first_raw, Some(false)) == Some(true),
        spec_toggle_next_expected(second_raw, spec_toggle_next_expected(first_raw, Some(false)))
            == Some(false),
{
}

/// The process-scoped window state: compositor classification, chrome and
/// floating preferences, the per-surface expectation maps and counters, the
/// focus metrics registry and the quick-capture slot. Each field mirrors one
/// of the logical tables the surfaces share.
pub struct WindowService {
    pub compositor: WindowManager,
    pub chrome: WindowChromeSettings,
    pub prefs: QuickWindowPreferences,
    pub expected_on_top: LabelMap<bool>,
    pub expected_visible: LabelMap<bool>,
    pub focus_metrics: LabelMap<FocusResult>,
    pub counters: LabelMap<WindowCounters>,
    pub quick_add_capture: Option<String>,
    pub metrics: FocusMetrics,
    pub metrics_enabled: bool,
    pub assume_profile_top: bool,
    pub assume_visibility: bool,
}

impl WindowService {
    /// The detection flags never change after construction.
    pub open spec fn spec_same_config(a: &WindowService, b: &WindowService) -> bool {
        &&& a.compositor == b.compositor
        &&& a.metrics_enabled == b.metrics_enabled
        &&& a.assume_profile_top == b.assume_profile_top
        &&& a.assume_visibility == b.assume_visibility
    }

    pub open spec fn spec_expected_on_top(&self, label: WindowLabel) -> Option<bool> {
        self.expected_on_top.spec_get(label)
    }

    pub open spec fn spec_expected_visible(&self, label: WindowLabel) -> Option<bool> {
        self.expected_visible.spec_get(label)
    }

    pub open spec fn spec_focus_metrics(&self, label: WindowLabel) -> Option<FocusResult> {
        self.focus_metrics.spec_get(label)
    }

    pub open spec fn spec_should_float(&self) -> bool {
        spec_should_float(&self.prefs, self.compositor)
    }

    pub fn new(
        compositor: WindowManager,
        metrics: FocusMetrics,
        metrics_enabled: bool,
        assume_profile_top: bool,
        assume_visibility: bool,
    ) -> (r: Self)
        ensures
            r.compositor == compositor,
            r.metrics == metrics,
            r.metrics_enabled == metrics_enabled,
            r.assume_profile_top == assume_profile_top,
            r.assume_visibility == assume_visibility,
            r.chrome == (WindowChromeSettings {
                macos: crate::settings::WindowChrome::FramelessShadow,
                linux: crate::settings::WindowChrome::Frameless,
                windows: crate::settings::WindowChrome::Native,
            }),
            r.prefs.float_on_tiling == true,
            r.prefs.per_wm_overrides@.len() == 0,
            forall|l: WindowLabel| #[trigger] r.spec_expected_on_top(l) is None,
            forall|l: WindowLabel| #[trigger] r.spec_expected_visible(l) is None,
            forall|l: WindowLabel| #[trigger] r.spec_focus_metrics(l) is None,
            forall|l: WindowLabel| #[trigger] r.counters.spec_get(l) is None,
            r.quick_add_capture is None,
    {
        WindowService {
            compositor,
            chrome: Default::default(),
            prefs: Default::default(),
            expected_on_top: LabelMap::new(),
            expected_visible: LabelMap::new(),
            focus_metrics: LabelMap::new(),
            counters: LabelMap::new(),
            quick_add_capture: None,
            metrics,
            metrics_enabled,
            assume_profile_top,
            assume_visibility,
        }
    }

    /// The label of the detected window manager: one of "hyprland", "sway",
    /// "river", "other".
    pub fn current_window_manager_label(&self) -> (r: &'static str)
        ensures
            r@ == self.compositor.spec_label(),
    {
        window_manager_label(self.compositor)
    }

    /// The floating policy under the detected compositor. Under a non-tiling
    /// compositor the answer is always true, whatever the stored
    /// preferences.
    pub fn should_float(&self) -> (r: bool)
        ensures
            r == self.spec_should_float(),
            !self.compositor.spec_is_tiling() ==> r == true,
    {
        quick_windows_should_float(&self.prefs, self.compositor)
    }

    /// Replaces the process-wide chrome settings.
    pub fn update_window_chrome_settings(&mut self, settings: &WindowChromeSettings)
        ensures
            final(self).chrome == *settings,
            Self::spec_same_config(old(self), final(self)),
            final(self).prefs == old(self).prefs,
            final(self).expected_on_top == old(self).expected_on_top,
            final(self).expected_visible == old(self).expected_visible,
            final(self).focus_metrics == old(self).focus_metrics,
            final(self).counters == old(self).counters,
            final(self).quick_add_capture == old(self).quick_add_capture,
            final(self).metrics == old(self).metrics,
    {
        self.chrome = *settings;
    }

    /// Normalizes and stores new quick-window preferences, returning the
    /// normalized value.
    pub fn update_quick_window_preferences(&mut self, preferences: QuickWindowPreferences) -> (r:
        QuickWindowPreferences)
        ensures
            r.float_on_tiling == preferences.float_on_tiling,
            final(self).prefs.float_on_tiling == r.float_on_tiling,
            forall|k: WindowManager|
                #[trigger] final(self).prefs.spec_override(k) == r.spec_override(k),
            old(self).compositor.spec_is_tiling() ==> r.spec_override(old(self).compositor)
                == Some(preferences.float_on_tiling),
            old(self).compositor.spec_is_tiling() ==> forall|k: WindowManager|
                k != old(self).compositor ==> #[trigger] r.spec_override(k)
                    == preferences.spec_override(k),
            !old(self).compositor.spec_is_tiling() ==> forall|k: WindowManager|
                #[trigger] r.spec_override(k) == preferences.spec_override(k),
            Self::spec_same_config(old(self), final(self)),
            final(self).chrome == old(self).chrome,
            final(self).expected_on_top == old(self).expected_on_top,
            final(self).expected_visible == old(self).expected_visible,
            final(self).focus_metrics == old(self).focus_metrics,
            final(self).counters == old(self).counters,
            final(self).quick_add_capture == old(self).quick_add_capture,
            final(self).metrics == old(self).metrics,
    {
        let normalized = normalize_quick_window_preferences(preferences, self.compositor);
        self.prefs = normalized.duplicate();
        normalized
    }

    /// Stores the captured selection for the quick-add dialog to pick up.
    pub fn record_quick_add_capture(&mut self, text: String)
        ensures
            final(self).quick_add_capture == Some(text),
            Self::spec_same_config(old(self), final(self)),
            final(self).chrome == old(self).chrome,
            final(self).prefs == old(self).prefs,
            final(self).expected_on_top == old(self).expected_on_top,
            final(self).expected_visible == old(self).expected_visible,
            final(self).focus_metrics == old(self).focus_metrics,
            final(self).counters == old(self).counters,
            final(self).metrics == old(self).metrics,
    {
        self.quick_add_capture = Some(text);
    }

    /// Hands out and clears the captured selection.
    pub fn take_quick_add_capture(&mut self) -> (r: Option<String>)
        ensures
            r == old(self).quick_add_capture,
            final(self).quick_add_capture is None,
            Self::spec_same_config(old(self), final(self)),
            final(self).chrome == old(self).chrome,
            final(self).prefs == old(self).prefs,
            final(self).expected_on_top == old(self).expected_on_top,
            final(self).expected_visible == old(self).expected_visible,
            final(self).focus_metrics == old(self).focus_metrics,
            final(self).counters == old(self).counters,
            final(self).metrics == old(self).metrics,
    {
        self.quick_add_capture.take()
    }

    /// Clears the captured selection.
    pub fn clear_quick_add_capture(&mut self)
        ensures
            final(self).quick_add_capture is None,
            Self::spec_same_config(old(self), final(self)),
            final(self).chrome == old(self).chrome,
            final(self).prefs == old(self).prefs,
            final(self).expected_on_top == old(self).expected_on_top,
            final(self).expected_visible == old(self).expected_visible,
            final(self).focus_metrics == old(self).focus_metrics,
            final(self).counters == old(self).counters,
            final(self).metrics == old(self).metrics,
    {
        self.quick_add_capture = None;
    }

    /// Clears every per-surface table, for test isolation.
    pub fn reset_focus_metrics_for_tests(&mut self)
        ensures
            forall|l: WindowLabel| #[trigger] final(self).spec_expected_on_top(l) is None,
            forall|l: WindowLabel| #[trigger] final(self).spec_expected_visible(l) is None,
            forall|l: WindowLabel| #[trigger] final(self).spec_focus_metrics(l) is None,
            forall|l: WindowLabel| #[trigger] final(self).counters.spec_get(l) is None,
            Self::spec_same_config(old(self), final(self)),
            final(self).chrome == old(self).chrome,
            final(self).prefs == old(self).prefs,
            final(self).quick_add_capture == old(self).quick_add_capture,
            final(self).metrics == old(self).metrics,
    {
        self.focus_metrics.clear();
        self.expected_on_top.clear();
        self.expected_visible.clear();
        self.counters.clear();
    }

    /// Records what the application last asked of the surface's
    /// always-on-top state.
    pub fn record_expected_on_top(&mut self, label: WindowLabel, expected: bool)
        ensures
            final(self).expected_on_top == old(self).expected_on_top.spec_set(label, expected),
            final(self).spec_expected_on_top(label) == Some(expected),
            forall|l: WindowLabel|
                l != label ==> #[trigger] final(self).spec_expected_on_top(l) == old(
                    self,
                ).spec_expected_on_top(l),
            Self::spec_same_config(old(self), final(self)),
            final(self).chrome == old(self).chrome,
            final(self).prefs == old(self).prefs,
            final(self).expected_visible == old(self).expected_visible,
            final(self).focus_metrics == old(self).focus_metrics,
            final(self).counters == old(self).counters,
            final(self).quick_add_capture == old(self).quick_add_capture,
            final(self).metrics == old(self).metrics,
    {
        self.expected_on_top.set(label, expected);
    }

    pub fn get_expected_on_top(&self, label: WindowLabel) -> (r: Option<bool>)
        ensures
            r == self.spec_expected_on_top(label),
    {
        self.expected_on_top.get(label)
    }

    /// Records what the application last asked of the surface's visibility.
    pub fn record_visibility_state(&mut self, label: WindowLabel, visible: bool)
        ensures
            final(self).expected_visible == old(self).expected_visible.spec_set(label, visible),
            final(self).spec_expected_visible(label) == Some(visible),
            forall|l: WindowLabel|
                l != label ==> #[trigger] final(self).spec_expected_visible(l) == old(
                    self,
                ).spec_expected_visible(l),
            Self::spec_same_config(old(self), final(self)),
            final(self).chrome == old(self).chrome,
            final(self).prefs == old(self).prefs,
            final(self).expected_on_top == old(self).expected_on_top,
            final(self).focus_metrics == old(self).focus_metrics,
            final(self).counters == old(self).counters,
            final(self).quick_add_capture == old(self).quick_add_capture,
            final(self).metrics == old(self).metrics,
    {
        self.expected_visible.set(label, visible);
    }

    pub fn get_visibility_state(&self, label: WindowLabel) -> (r: Option<bool>)
        ensures
            r == self.spec_expected_visible(label),
    {
        self.expected_visible.get(label)
    }

    /// The always-on-top value a refresh hands to the toolkit: the floating
    /// policy for the surfaces that follow it, nothing for the others.
    pub fn expected_on_top_for_label(&self, label: WindowLabel) -> (r: Option<bool>)
        ensures
            r == if label.spec_on_top_follows_policy() {
                Some(self.spec_should_float())
            } else {
                None::<bool>
            },
    {
        if label.on_top_follows_policy() {
            Some(self.should_float())
        } else {
            None
        }
    }

    /// Refreshes the surface's always-on-top expectation from the current
    /// floating policy and returns the value to hand to the toolkit.
    pub fn refresh_on_top_state(&mut self, label: WindowLabel) -> (r: Option<bool>)
        ensures
            r == if label.spec_on_top_follows_policy() {
                Some(old(self).spec_should_float())
            } else {
                None::<bool>
            },
            final(self).expected_on_top == if label.spec_on_top_follows_policy() {
                old(self).expected_on_top.spec_set(label, old(self).spec_should_float())
            } else {
                old(self).expected_on_top
            },
            label.spec_on_top_follows_policy() ==> final(self).spec_expected_on_top(label) == Some(
                old(self).spec_should_float(),
            ),
            forall|l: WindowLabel|
                l != label ==> #[trigger] final(self).spec_expected_on_top(l) == old(
                    self,
                ).spec_expected_on_top(l),
            Self::spec_same_config(old(self), final(self)),
            final(self).chrome == old(self).chrome,
            final(self).prefs == old(self).prefs,
            final(self).expected_visible == old(self).expected_visible,
            final(self).focus_metrics == old(self).focus_metrics,
            final(self).counters == old(self).counters,
            final(self).quick_add_capture == old(self).quick_add_capture,
            final(self).metrics == old(self).metrics,
    {
        let refresh = self.expected_on_top_for_label(label);
        match refresh {
            Some(expected) => {
                self.expected_on_top.set(label, expected);
                Some(expected)
            },
            None => None,
        }
    }

    /// Adds one focus outcome to the per-label counters and the metrics
    /// registry; recorded only when the metrics flag is set.
    pub fn record_focus_counters(&mut self, label: WindowLabel, result: FocusResult)
        ensures
            old(self).metrics_enabled ==> final(self).counters.spec_get(label) == Some(
                spec_bump_counters(old(self).counters.spec_get(label), result.success),
            ),
            old(self).metrics_enabled ==> forall|l: WindowLabel|
                l != label ==> #[trigger] final(self).counters.spec_get(l) == old(
                    self,
                ).counters.spec_get(l),
            old(self).metrics_enabled ==> spec_counts_bumped(
                focus_counts(&old(self).metrics),
                focus_counts(&final(self).metrics),
                old(self).compositor.spec_label() + spec_result_label(result.success),
            ),
            !old(self).metrics_enabled ==> final(self).counters == old(self).counters,
            !old(self).metrics_enabled ==> final(self).metrics == old(self).metrics,
            Self::spec_same_config(old(self), final(self)),
            final(self).chrome == old(self).chrome,
            final(self).prefs == old(self).prefs,
            final(self).expected_on_top == old(self).expected_on_top,
            final(self).expected_visible == old(self).expected_visible,
            final(self).focus_metrics == old(self).focus_metrics,
            final(self).quick_add_capture == old(self).quick_add_capture,
    {
        if !self.metrics_enabled {
            return ;
        }
        let current = match self.counters.get(label) {
            Some(c) => c,
            None => WindowCounters { focus_success_total: 0, focus_failure_total: 0 },
        };
        let bumped = if result.success {
            WindowCounters {
                focus_success_total: current.focus_success_total.saturating_add(1),
                focus_failure_total: current.focus_failure_total,
            }
        } else {
            WindowCounters {
                focus_success_total: current.focus_success_total,
                focus_failure_total: current.focus_failure_total.saturating_add(1),
            }
        };
        self.counters.set(label, bumped);
        let compositor_label = window_manager_label(self.compositor);
        proof {
            crate::compositor::lemma_spec_label_is_wm_label(self.compositor);
        }
        record_window_focus(&mut self.metrics, compositor_label, result.success);
    }

    pub fn get_focus_counters(&self, label: WindowLabel) -> (r: Option<WindowCounters>)
        ensures
            r == if self.metrics_enabled {
                self.counters.spec_get(label)
            } else {
                None::<WindowCounters>
            },
    {
        if self.metrics_enabled {
            self.counters.get(label)
        } else {
            None
        }
    }

    /// Stores the most recent focus outcome for the surface and counts it.
    pub fn record_focus_metrics(&mut self, label: WindowLabel, result: FocusResult)
        ensures
            final(self).focus_metrics == old(self).focus_metrics.spec_set(label, result),
            final(self).spec_focus_metrics(label) == Some(result),
            forall|l: WindowLabel|
                l != label ==> #[trigger] final(self).spec_focus_metrics(l) == old(
                    self,
                ).spec_focus_metrics(l),
            old(self).metrics_enabled ==> final(self).counters.spec_get(label) == Some(
                spec_bump_counters(old(self).counters.spec_get(label), result.success),
            ),
            old(self).metrics_enabled ==> forall|l: WindowLabel|
                l != label ==> #[trigger] final(self).counters.spec_get(l) == old(
                    self,
                ).counters.spec_get(l),
            old(self).metrics_enabled ==> spec_counts_bumped(
                focus_counts(&old(self).metrics),
                focus_counts(&final(self).metrics),
                old(self).compositor.spec_label() + spec_result_label(result.success),
            ),
            !old(self).metrics_enabled ==> final(self).counters == old(self).counters,
            !old(self).metrics_enabled ==> final(self).metrics == old(self).metrics,
            Self::spec_same_config(old(self), final(self)),
            final(self).chrome == old(self).chrome,
            final(self).prefs == old(self).prefs,
            final(self).expected_on_top == old(self).expected_on_top,
            final(self).expected_visible == old(self).expected_visible,
            final(self).quick_add_capture == old(self).quick_add_capture,
    {
        self.focus_metrics.set(label, result);
        self.record_focus_counters(label, result);
    }

    pub fn get_focus_metrics(&self, label: WindowLabel) -> (r: Option<FocusResult>)
        ensures
            r == self.spec_focus_metrics(label),
    {
        self.focus_metrics.get(label)
    }

    /// The state effects of one completed `show`: the always-on-top
    /// expectation is refreshed from the floating policy (so a surface whose
    /// profile puts it on top is expected on top after every show), the
    /// focus outcome is stored and counted, and the surface is expected
    /// visible.
    pub fn record_window_shown(&mut self, label: WindowLabel, focus: FocusResult)
        ensures
            label.spec_on_top_follows_policy() ==> final(self).spec_expected_on_top(label) == Some(
                old(self).spec_should_float(),
            ),
            !label.spec_on_top_follows_policy() ==> final(self).expected_on_top == old(
                self,
            ).expected_on_top,
            forall|l: WindowLabel|
                l != label ==> #[trigger] final(self).spec_expected_on_top(l) == old(
                    self,
                ).spec_expected_on_top(l),
            final(self).spec_expected_visible(label) == Some(true),
            forall|l: WindowLabel|
                l != label ==> #[trigger] final(self).spec_expected_visible(l) == old(
                    self,
                ).spec_expected_visible(l),
            final(self).spec_focus_metrics(label) == Some(focus),
            forall|l: WindowLabel|
                l != label ==> #[trigger] final(self).spec_focus_metrics(l) == old(
                    self,
                ).spec_focus_metrics(l),
            old(self).metrics_enabled ==> final(self).counters.spec_get(label) == Some(
                spec_bump_counters(old(self).counters.spec_get(label), focus.success),
            ),
            old(self).metrics_enabled ==> forall|l: WindowLabel|
                l != label ==> #[trigger] final(self).counters.spec_get(l) == old(
                    self,
                ).counters.spec_get(l),
            old(self).metrics_enabled ==> spec_counts_bumped(
                focus_counts(&old(self).metrics),
                focus_counts(&final(self).metrics),
                old(self).compositor.spec_label() + spec_result_label(focus.success),
            ),
            !old(self).metrics_enabled ==> final(self).counters == old(self).counters,
            !old(self).metrics_enabled ==> final(self).metrics == old(self).metrics,
            Self::spec_same_config(old(self), final(self)),
            final(self).chrome == old(self).chrome,
            final(self).prefs == old(self).prefs,
            final(self).quick_add_capture == old(self).quick_add_capture,
    {
        let _ = self.refresh_on_top_state(label);
        self.record_focus_metrics(label, focus);
        self.record_visibility_state(label, true);
    }

    /// The state effect of one `hide`: whichever path the toolkit took (hide
    /// or the close fallback), the surface is expected hidden.
    pub fn record_window_hidden(&mut self, label: WindowLabel)
        ensures
            final(self).spec_expected_visible(label) == Some(false),
            forall|l: WindowLabel|
                l != label ==> #[trigger] final(self).spec_expected_visible(l) == old(
                    self,
                ).spec_expected_visible(l),
            Self::spec_same_config(old(self), final(self)),
            final(self).chrome == old(self).chrome,
            final(self).prefs == old(self).prefs,
            final(self).expected_on_top == old(self).expected_on_top,
            final(self).focus_metrics == old(self).focus_metrics,
            final(self).counters == old(self).counters,
            final(self).quick_add_capture == old(self).quick_add_capture,
            final(self).metrics == old(self).metrics,
    {
        self.record_visibility_state(label, false);
    }

    /// Whether a toggle treats the surface as visible, combining the raw
    /// query with the tracked expectation.
    pub fn effective_visibility(&self, label: WindowLabel, actual: Option<bool>) -> (r: bool)
        ensures
            r == spec_effective_visible(actual, self.spec_expected_visible(label)),
    {
        let actual_visible = match actual {
            Some(v) => v,
            None => false,
        };
        let expected = match self.expected_visible.get(label) {
            Some(e) => e,
            None => actual_visible,
        };
        if actual_visible && !expected {
            false
        } else {
            actual_visible
        }
    }

    /// The bookkeeping of a successful creation: overlay and dialog surfaces
    /// take their always-on-top expectation from the floating policy and are
    /// expected hidden until shown; standard surfaces are pinned not-on-top.
    /// Returns the always-on-top value to hand to the toolkit.
    pub fn record_surface_created(&mut self, label: WindowLabel) -> (r: Option<bool>)
        ensures
            label.spec_on_top_follows_policy() ==> r == Some(old(self).spec_should_float())
                && final(self).spec_expected_on_top(label) == Some(old(self).spec_should_float())
                && final(self).spec_expected_visible(label) == Some(false),
            !label.spec_on_top_follows_policy() ==> {
                &&& r == Some(false)
                &&& final(self).spec_expected_on_top(label) == Some(false)
                &&& final(self).expected_visible == old(self).expected_visible
            },
            forall|l: WindowLabel|
                l != label ==> #[trigger] final(self).spec_expected_on_top(l) == old(
                    self,
                ).spec_expected_on_top(l),
            forall|l: WindowLabel|
                l != label ==> #[trigger] final(self).spec_expected_visible(l) == old(
                    self,
                ).spec_expected_visible(l),
            Self::spec_same_config(old(self), final(self)),
            final(self).chrome == old(self).chrome,
            final(self).prefs == old(self).prefs,
            final(self).focus_metrics == old(self).focus_metrics,
            final(self).counters == old(self).counters,
            final(self).quick_add_capture == old(self).quick_add_capture,
            final(self).metrics == old(self).metrics,
    {
        if label.on_top_follows_policy() {
            let v = self.should_float();
            self.expected_on_top.set(label, v);
            self.expected_visible.set(label, false);
            Some(v)
        } else {
            self.expected_on_top.set(label, false);
            Some(false)
        }
    }

    /// The creation plan for one surface under the current settings.
    pub fn plan_surface(&self, label: WindowLabel, platform: Platform) -> (plan: WindowPlan)
        ensures
            spec_plan_matches(
                plan,
                label,
                self.spec_should_float(),
                spec_chrome_preference(self.chrome, platform),
            ),
    {
        plan_surface(label, platform, &self.chrome, &self.prefs, self.compositor)
    }

    /// One reconciled diagnostic record, built from what the toolkit
    /// reported and what this service tracked.
    pub fn diagnostic_for(&self, raw: &RawWindowState) -> (d: WindowDiagnostic)
        ensures
            spec_diag_matches(d, self, *raw),
    {
        let expected_visible = self.expected_visible.get(raw.label);
        let expected_on_top = self.expected_on_top.get(raw.label);
        let is_visible = reconcile_visibility(raw.is_visible, expected_visible, self.assume_visibility);
        let always_on_top = reconcile_on_top(raw.always_on_top, expected_on_top, self.assume_profile_top);
        let (focus_attempts, focus_success) = match self.focus_metrics.get(raw.label) {
            Some(m) => (Some(m.attempts), Some(m.success)),
            None => (None, None),
        };
        let (focus_success_total, focus_failure_total) = match self.get_focus_counters(raw.label) {
            Some(c) => (Some(c.focus_success_total), Some(c.focus_failure_total)),
            None => (None, None),
        };
        WindowDiagnostic {
            label: raw.label.as_str().to_owned(),
            is_visible,
            is_focused: raw.is_focused,
            decorations: match raw.is_decorated {
                Some(d) => d,
                None => true,
            },
            always_on_top,
            skip_taskbar: false,
            position: raw.position,
            size: raw.size,
            visibility_expected: expected_visible,
            always_on_top_expected: expected_on_top,
            focus_attempts,
            focus_success,
            focus_success_total,
            focus_failure_total,
        }
    }

    /// One diagnostic record per live surface, in the order the raw states
    /// were handed in.
    pub fn collect_window_diagnostics(&self, raw_states: &Vec<RawWindowState>) -> (r: Vec<
        WindowDiagnostic,
    >)
        ensures
            r@.len() == raw_states@.len(),
            forall|i: int|
                0 <= i < raw_states@.len() ==> spec_diag_matches(#[trigger] r@[i], self, raw_states@[i]),
    {
        let n = raw_states.len();
        let mut out: Vec<WindowDiagnostic> = Vec::new();
        let mut i: usize = 0;
        while i < n
            invariant
                0 <= i <= n,
                n == raw_states@.len(),
                out@.len() == i,
                forall|j: int|
                    0 <= j < i ==> spec_diag_matches(#[trigger] out@[j], self, raw_states@[j]),
            decreases n - i,
        {
            let d = self.diagnostic_for(&raw_states[i]);
            out.push(d);
            i = i + 1;
        }
        out
    }
}

/// Whether a failed hide falls back to closing the surface outright: only
/// on Linux, and only when the toolkit reports the operation unsupported.
pub fn hide_falls_back_to_close(error_message: &str, linux: bool) -> (r: bool)
    ensures
        r == (linux && crate::strutil::spec_contains_seq(error_message@, "NotSupported"@)),
{
    linux && crate::strutil::str_contains(error_message, "NotSupported")
}

/// Whether a positioning error is a compositor rejecting absolute
/// positioning by design, to be swallowed rather than surfaced: only on
/// Linux, on the not-supported wording.
pub fn should_ignore_positioning_error(error_message: &str, linux: bool) -> (r: bool)
    ensures
        r == (linux && (crate::strutil::spec_contains_seq(error_message@, "NotSupported"@)
            || crate::strutil::spec_contains_seq(error_message@, "not supported"@))),
{
    if linux {
        crate::strutil::str_contains(error_message, "NotSupported")
            || crate::strutil::str_contains(error_message, "not supported")
    } else {
        false
    }
}

/// A surface whose profile takes always-on-top from the floating policy is,
/// after a show under a policy that floats, expected on top in its
/// diagnostics, whatever the raw query reported: `record_window_shown` sets
/// the expectation, and reconciliation copies it into the record unchanged.
pub proof fn lemma_show_sets_on_top_expectation(
    s: WindowService,
    d: WindowDiagnostic,
    raw: RawWindowState,
)
    requires
        raw.label.spec_on_top_follows_policy(),
        s.spec_expected_on_top(raw.label) == Some(true),
        spec_diag_matches(d, &s, raw),
    ensures
        d.always_on_top_expected == Some(true),
{
}

/// Field-wise agreement of one diagnostic record with the reconciliation
/// rules, the tracked expectations and the stored focus outcome.
pub open spec fn spec_diag_matches(
    d: WindowDiagnostic,
    s: &WindowService,
    raw: RawWindowState,
) -> bool {
    &&& d.label@ == raw.label.spec_str()
    &&& d.is_visible == spec_reconcile_visibility(
        raw.is_visible,
        s.spec_expected_visible(raw.label),
        s.assume_visibility,
    )
    &&& d.is_focused == raw.is_focused
    &&& d.decorations == (if raw.is_decorated is Some {
        raw.is_decorated->0
    } else {
        true
    })
    &&& d.always_on_top == spec_reconcile_on_top(
        raw.always_on_top,
        s.spec_expected_on_top(raw.label),
        s.assume_profile_top,
    )
    &&& d.skip_taskbar == false
    &&& d.position == raw.position
    &&& d.size == raw.size
    &&& d.visibility_expected == s.spec_expected_visible(raw.label)
    &&& d.always_on_top_expected == s.spec_expected_on_top(raw.label)
    &&& d.focus_attempts == (match s.spec_focus_metrics(raw.label) {
        Some(m) => Some(m.attempts),
        None => None::<usize>,
    })
    &&& d.focus_success == (match s.spec_focus_metrics(raw.label) {
        Some(m) => Some(m.success),
        None => None::<bool>,
    })
    &&& d.focus_success_total == (if s.metrics_enabled {
        match s.counters.spec_get(raw.label) {
            Some(c) => Some(c.focus_success_total),
            None => None::<u64>,
        }
    } else {
        None::<u64>
    })
    &&& d.focus_failure_total == (if s.metrics_enabled {
        match s.counters.spec_get(raw.label) {
            Some(c) => Some(c.focus_failure_total),
            None => None::<u64>,
        }
    } else {
        None::<u64>
    })
}

} // verus!
