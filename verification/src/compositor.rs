//! Compositor classification and the floating policy for the quick windows.
//!
//! The detector classifies the active window manager once at startup; all
//! floating/always-on-top policy downstream depends on that classification.

use vstd::prelude::*;
use crate::strutil::{lower_of, spec_contains_seq, str_contains, to_lowercase};

verus! {

/// The closed set of window-manager classifications. The three named ones
/// are tiling compositors; everything else is `Other`.
#[derive(Debug, Clone, Copy, PartialEq, Eq, Structural)]
pub enum WindowManager {
    Hyprland,
    Sway,
    River,
    Other,
}

impl WindowManager {
    /// Whether this classification is a tiling compositor, where floating
    /// and always-on-top are an explicit opt-in.
    pub open spec fn spec_is_tiling(self) -> bool {
        self != WindowManager::Other
    }

    pub fn is_tiling(self) -> (r: bool)
        ensures
            r == self.spec_is_tiling(),
    {
        match self {
            WindowManager::Other => false,
            _ => true,
        }
    }

    pub open spec fn spec_label(self) -> Seq<char> {
        match self {
            WindowManager::Hyprland => "hyprland"@,
            WindowManager::Sway => "sway"@,
            WindowManager::River => "river"@,
            WindowManager::Other => "other"@,
        }
    }
}

/// The display label of a window-manager classification: one of "hyprland",
/// "sway", "river", "other".
pub fn window_manager_label(window_manager: WindowManager) -> (r: &'static str)
    ensures
        r@ == window_manager.spec_label(),
{
    match window_manager {
        WindowManager::Hyprland => "hyprland",
        WindowManager::Sway => "sway",
        WindowManager::River => "river",
        WindowManager::Other => "other",
    }
}

/// Whether `s` is one of the four labels the detector can report.
pub open spec fn spec_is_wm_label(s: Seq<char>) -> bool {
    ||| s == "hyprland"@
    ||| s == "sway"@
    ||| s == "river"@
    ||| s == "other"@
}

/// Every classification's label is one of the four.
pub proof fn lemma_spec_label_is_wm_label(wm: WindowManager)
    ensures
        spec_is_wm_label(wm.spec_label()),
{
}

/// Classifies the window manager from the environment signals: the Hyprland
/// instance signature, the Sway socket, the current-desktop name and the
/// River instance marker, checked in that order.
pub open spec fn spec_classify(
    hyprland_signature: bool,
    sway_socket: bool,
    current_desktop: Option<Seq<char>>,
    river_instance: bool,
) -> WindowManager {
    if hyprland_signature {
        WindowManager::Hyprland
    } else if sway_socket || (current_desktop is Some && spec_contains_seq(
        lower_of(current_desktop->0),
        "sway"@,
    )) {
        WindowManager::Sway
    } else if river_instance {
        WindowManager::River
    } else {
        WindowManager::Other
    }
}

pub fn classify_compositor(
    hyprland_signature: bool,
    sway_socket: bool,
    current_desktop: Option<&str>,
    river_instance: bool,
) -> (r: WindowManager)
    ensures
        r == spec_classify(
            hyprland_signature,
            sway_socket,
            match current_desktop {
                Some(s) => Some(s@),
                None => None,
            },
            river_instance,
        ),
{
    if hyprland_signature {
        WindowManager::Hyprland
    } else {
        let desktop_is_sway = match current_desktop {
            Some(desktop) => {
                let lowered = to_lowercase(desktop);
                str_contains(lowered.as_str(), "sway")
            },
            None => false,
        };
        if sway_socket || desktop_is_sway {
            WindowManager::Sway
        } else if river_instance {
            WindowManager::River
        } else {
            WindowManager::Other
        }
    }
}

/// First-match lookup in an association list of per-compositor overrides.
pub open spec fn spec_assoc_get(s: Seq<(WindowManager, bool)>, k: WindowManager) -> Option<bool>
    decreases s.len(),
{
    if s.len() == 0 {
        None
    } else if s[0].0 == k {
        Some(s[0].1)
    } else {
        spec_assoc_get(s.drop_first(), k)
    }
}

proof fn lemma_assoc_get_at(s: Seq<(WindowManager, bool)>, k: WindowManager, i: int)
    requires
        0 <= i <= s.len(),
        forall|j: int| 0 <= j < i ==> (#[trigger] s[j]).0 != k,
        i == s.len() || s[i].0 == k,
    ensures
        spec_assoc_get(s, k) == if i == s.len() {
            None::<bool>
        } else {
            Some(s[i].1)
        },
    decreases i,
{
    if i == 0 {
    } else {
        assert(s[0].0 != k);
        assert forall|j: int| 0 <= j < i - 1 implies (#[trigger] s.drop_first()[j]).0 != k by {
            assert(s.drop_first()[j] == s[j + 1]);
        }
        if i - 1 < s.drop_first().len() {
            assert(s.drop_first()[i - 1] == s[i]);
        }
        lemma_assoc_get_at(s.drop_first(), k, i - 1);
        if i < s.len() {
            assert(s.drop_first()[i - 1] == s[i]);
        }
    }
}

proof fn lemma_assoc_get_update(
    s: Seq<(WindowManager, bool)>,
    k: WindowManager,
    i: int,
    v: bool,
    k2: WindowManager,
)
    requires
        0 <= i < s.len(),
        s[i].0 == k,
        forall|j: int| 0 <= j < i ==> (#[trigger] s[j]).0 != k,
    ensures
        spec_assoc_get(s.update(i, (k, v)), k2) == if k2 == k {
            Some(v)
        } else {
            spec_assoc_get(s, k2)
        },
    decreases s.len(),
{
    let t = s.update(i, (k, v));
    assert(t.len() == s.len());
    if i == 0 {
        assert(t[0] == (k, v));
        assert(t[0].0 == k && t[0].1 == v);
        assert(s[0].0 == k);
        if k2 != k {
            assert(t.drop_first() =~= s.drop_first());
        }
    } else {
        assert(t[0] == s[0]);
        assert(t.drop_first() =~= s.drop_first().update(i - 1, (k, v)));
        assert forall|j: int| 0 <= j < i - 1 implies (#[trigger] s.drop_first()[j]).0 != k by {
            assert(s.drop_first()[j] == s[j + 1]);
        }
        assert(s.drop_first()[i - 1] == s[i]);
        lemma_assoc_get_update(s.drop_first(), k, i - 1, v, k2);
        assert(s[0].0 != k);
    }
}

proof fn lemma_assoc_get_push(
    s: Seq<(WindowManager, bool)>,
    k: WindowManager,
    v: bool,
    k2: WindowManager,
)
    requires
        spec_assoc_get(s, k) is None,
    ensures
        spec_assoc_get(s.push((k, v)), k2) == if k2 == k {
            Some(v)
        } else {
            spec_assoc_get(s, k2)
        },
    decreases s.len(),
{
    let t = s.push((k, v));
    assert(t.len() == s.len() + 1);
    if s.len() == 0 {
        assert(t[0] == (k, v));
        assert(t[0].0 == k && t[0].1 == v);
        assert(t.drop_first() =~= Seq::<(WindowManager, bool)>::empty());
        if k2 != k {
            assert(spec_assoc_get(t.drop_first(), k2) is None);
            assert(spec_assoc_get(s, k2) is None);
        }
    } else {
        assert(t[0] == s[0]);
        assert(s[0].0 != k);
        assert(t.drop_first() =~= s.drop_first().push((k, v)));
        lemma_assoc_get_push(s.drop_first(), k, v, k2);
    }
}

/// Preferences for the quick windows under tiling compositors: the general
/// float-on-tiling switch and explicit per-compositor overrides. Normalized
/// at write time so the detected compositor always has an explicit entry.
#[derive(Debug, Clone)]
pub struct QuickWindowPreferences {
    pub float_on_tiling: bool,
    pub per_wm_overrides: Vec<(WindowManager, bool)>,
}

impl QuickWindowPreferences {
    /// The override stored for `wm`, if any.
    pub open spec fn spec_override(&self, wm: WindowManager) -> Option<bool> {
        spec_assoc_get(self.per_wm_overrides@, wm)
    }

    pub fn override_for(&self, wm: WindowManager) -> (r: Option<bool>)
        ensures
            r == self.spec_override(wm),
    {
        let n = self.per_wm_overrides.len();
        let mut i: usize = 0;
        while i < n
            invariant
                0 <= i <= n,
                n == self.per_wm_overrides@.len(),
                forall|j: int| 0 <= j < i ==> (#[trigger] self.per_wm_overrides@[j]).0 != wm,
            decreases n - i,
        {
            let (key, value) = self.per_wm_overrides[i];
            if key == wm {
                proof {
                    lemma_assoc_get_at(self.per_wm_overrides@, wm, i as int);
                }
                return Some(value);
            }
            i = i + 1;
        }
        proof {
            lemma_assoc_get_at(self.per_wm_overrides@, wm, n as int);
        }
        None
    }

    /// An element-wise copy of these preferences.
    pub fn duplicate(&self) -> (r: Self)
        ensures
            r.float_on_tiling == self.float_on_tiling,
            r.per_wm_overrides@ == self.per_wm_overrides@,
    {
        let n = self.per_wm_overrides.len();
        let mut overrides: Vec<(WindowManager, bool)> = Vec::new();
        let mut i: usize = 0;
        while i < n
            invariant
                0 <= i <= n,
                n == self.per_wm_overrides@.len(),
                overrides@ == self.per_wm_overrides@.subrange(0, i as int),
            decreases n - i,
        {
            overrides.push(self.per_wm_overrides[i]);
            proof {
                assert(overrides@ =~= self.per_wm_overrides@.subrange(0, i + 1));
            }
            i = i + 1;
        }
        proof {
            assert(overrides@ =~= self.per_wm_overrides@);
        }
        QuickWindowPreferences { float_on_tiling: self.float_on_tiling, per_wm_overrides: overrides }
    }

    /// Inserts or overwrites the override for `wm`.
    pub fn set_override(&mut self, wm: WindowManager, value: bool)
        ensures
            final(self).float_on_tiling == old(self).float_on_tiling,
            final(self).spec_override(wm) == Some(value),
            forall|k2: WindowManager|
                k2 != wm ==> #[trigger] final(self).spec_override(k2) == old(self).spec_override(
                    k2,
                ),
    {
        let n = self.per_wm_overrides.len();
        let mut i: usize = 0;
        while i < n
            invariant
                0 <= i <= n,
                self == old(self),
                n == self.per_wm_overrides@.len(),
                forall|j: int| 0 <= j < i ==> (#[trigger] self.per_wm_overrides@[j]).0 != wm,
            decreases n - i,
        {
            let (key, _) = self.per_wm_overrides[i];
            if key == wm {
                proof {
                    assert forall|k2: WindowManager|
                        spec_assoc_get(
                            self.per_wm_overrides@.update(i as int, (wm, value)),
                            k2,
                        ) == if k2 == wm {
                            Some(value)
                        } else {
                            spec_assoc_get(self.per_wm_overrides@, k2)
                        } by {
                        lemma_assoc_get_update(self.per_wm_overrides@, wm, i as int, value, k2);
                    }
                }
                self.per_wm_overrides.set(i, (wm, value));
                return ;
            }
            i = i + 1;
        }
        proof {
            lemma_assoc_get_at(self.per_wm_overrides@, wm, n as int);
            assert forall|k2: WindowManager|
                spec_assoc_get(self.per_wm_overrides@.push((wm, value)), k2) == if k2 == wm {
                    Some(value)
                } else {
                    spec_assoc_get(self.per_wm_overrides@, k2)
                } by {
                lemma_assoc_get_push(self.per_wm_overrides@, wm, value, k2);
            }
        }
        self.per_wm_overrides.push((wm, value));
    }
}

impl Default for QuickWindowPreferences {
    fn default() -> (r: Self)
        ensures
            r.float_on_tiling == true,
            r.per_wm_overrides@.len() == 0,
    {
        QuickWindowPreferences { float_on_tiling: true, per_wm_overrides: Vec::new() }
    }
}

/// The normalization applied whenever preferences are written: under a
/// tiling compositor the detected compositor gets an explicit override set
/// to the current `float_on_tiling` value, so stale overrides never apply
/// silently after a compositor switch. Under `Other` nothing changes.
pub fn normalize_quick_window_preferences(
    preferences: QuickWindowPreferences,
    window_manager: WindowManager,
) -> (r: QuickWindowPreferences)
    ensures
        r.float_on_tiling == preferences.float_on_tiling,
        window_manager.spec_is_tiling() ==> r.spec_override(window_manager) == Some(
            preferences.float_on_tiling,
        ),
        window_manager.spec_is_tiling() ==> forall|k2: WindowManager|
            k2 != window_manager ==> #[trigger] r.spec_override(k2) == preferences.spec_override(
                k2,
            ),
        !window_manager.spec_is_tiling() ==> r == preferences,
{
    let mut preferences = preferences;
    if window_manager.is_tiling() {
        let float_on_tiling = preferences.float_on_tiling;
        preferences.set_override(window_manager, float_on_tiling);
    }
    preferences
}

/// The floating policy: under a tiling compositor the stored override for
/// that compositor decides, falling back to `float_on_tiling`; under any
/// other compositor floating is always on.
pub open spec fn spec_should_float(
    preferences: &QuickWindowPreferences,
    window_manager: WindowManager,
) -> bool {
    if window_manager.spec_is_tiling() {
        match spec_assoc_get(preferences.per_wm_overrides@, window_manager) {
            Some(v) => v,
            None => preferences.float_on_tiling,
        }
    } else {
        true
    }
}

pub fn quick_windows_should_float(
    preferences: &QuickWindowPreferences,
    window_manager: WindowManager,
) -> (r: bool)
    ensures
        r == spec_should_float(preferences, window_manager),
        !window_manager.spec_is_tiling() ==> r == true,
{
    if window_manager.is_tiling() {
        match preferences.override_for(window_manager) {
            Some(v) => v,
            None => preferences.float_on_tiling,
        }
    } else {
        true
    }
}

} // verus!
