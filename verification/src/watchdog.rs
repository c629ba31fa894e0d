//! The external trigger watchdog: it correlates externally invoked methods,
//! observed on the session bus, with the latency of the resulting window
//! focus outcome, and exposes a diagnostics snapshot.
//!
//! The monitor process and its line stream live outside; this module makes
//! every decision: which method maps to which surface, what each observed
//! line means, and how an outcome updates the latency statistics.

use vstd::prelude::*;
use crate::labels::WindowLabel;
use crate::service::LabelMap;
use crate::strutil::{
    clone_opt_string, clone_string_vec, count_leading, count_trailing, lemma_count_leading_is_index,
    lemma_count_trailing_is_index, spec_split_ws, spec_starts_with, split_whitespace_tokens,
    starts_with_str, str_eq,
};
use crate::timeutil::{format_rfc3339_ms, rfc3339_of};

verus! {

/// The deadline, in milliseconds, within which a focus outcome after an
/// external trigger counts as a success.
pub const DEADLINE_MS: u64 = 200;

/// How many latency samples the ring buffer keeps.
pub const MAX_SAMPLES: usize = 50;

/// How many human-readable notes are kept, oldest dropped first.
pub const MAX_NOTES: usize = 10;

/// The surface an externally invoked method is expected to affect.
pub open spec fn spec_method_to_window(method: Seq<char>) -> Option<WindowLabel> {
    if method == "ShowQuickAdd"@ {
        Some(WindowLabel::QuickCapture)
    } else if method == "ShowSearch"@ || method == "ToggleSearch"@ {
        Some(WindowLabel::Search)
    } else if method == "ShowManagement"@ {
        Some(WindowLabel::Management)
    } else if method == "ReloadTheme"@ {
        Some(WindowLabel::Settings)
    } else {
        None
    }
}

pub fn method_to_window(method: &str) -> (r: Option<WindowLabel>)
    ensures
        r == spec_method_to_window(method@),
{
    if str_eq(method, "ShowQuickAdd") {
        Some(WindowLabel::QuickCapture)
    } else if str_eq(method, "ShowSearch") || str_eq(method, "ToggleSearch") {
        Some(WindowLabel::Search)
    } else if str_eq(method, "ShowManagement") {
        Some(WindowLabel::Management)
    } else if str_eq(method, "ReloadTheme") {
        Some(WindowLabel::Settings)
    } else {
        None
    }
}

/// The characters trimmed from both ends of an extracted member name.
pub open spec fn quote_pred() -> spec_fn(char) -> bool {
    |c: char| c == '"' || c == '\'' || c == ';'
}

/// A member token with surrounding quotes and semicolons removed.
pub open spec fn spec_trim_quotes(s: Seq<char>) -> Seq<char> {
    let a = count_leading(s, quote_pred()) as int;
    let b = count_trailing(s, quote_pred()) as int;
    if a == s.len() {
        Seq::empty()
    } else {
        s.subrange(a, s.len() - b)
    }
}

fn is_quote_char(c: char) -> (r: bool)
    ensures
        r == quote_pred()(c),
{
    c == '"' || c == '\'' || c == ';'
}

fn trim_quotes(s: &str) -> (r: &str)
    ensures
        r@ == spec_trim_quotes(s@),
{
    let n = s.unicode_len();
    let mut i: usize = 0;
    while i < n && is_quote_char(s.get_char(i))
        invariant
            0 <= i <= n,
            n == s@.len(),
            forall|k: int| 0 <= k < i ==> #[trigger] quote_pred()(s@[k]),
        decreases n - i,
    {
        proof {
            assert(quote_pred()(s@[i as int]));
        }
        i = i + 1;
    }
    proof {
        if i < n {
            assert(!quote_pred()(s@[i as int]));
        }
        lemma_count_leading_is_index(s@, quote_pred(), i as int);
    }
    if i == n {
        proof {
            reveal_strlit("");
            assert(spec_trim_quotes(s@) =~= ""@);
        }
        ""
    } else {
        let mut j: usize = n;
        while j > i && is_quote_char(s.get_char(j - 1))
            invariant
                i < j <= n,
                i < n,
                n == s@.len(),
                !quote_pred()(s@[i as int]),
                forall|k: int| j <= k < n ==> #[trigger] quote_pred()(s@[k]),
            decreases j,
        {
            proof {
                assert(quote_pred()(s@[j - 1]));
            }
            j = j - 1;
        }
        proof {
            assert(!quote_pred()(s@[j - 1]));
            lemma_count_trailing_is_index(s@, quote_pred(), j as int);
        }
        s.substring_char(i, j)
    }
}

/// The first whitespace-separated token carrying the member prefix, with
/// the prefix stripped.
pub open spec fn spec_first_member(tokens: Seq<Seq<char>>) -> Option<Seq<char>>
    decreases tokens.len(),
{
    if tokens.len() == 0 {
        None
    } else if spec_starts_with(tokens[0], "member="@) {
        Some(tokens[0].skip("member="@.len() as int))
    } else {
        spec_first_member(tokens.drop_first())
    }
}

proof fn lemma_first_member_at(tokens: Seq<Seq<char>>, i: int)
    requires
        0 <= i <= tokens.len(),
        forall|j: int| 0 <= j < i ==> !spec_starts_with(#[trigger] tokens[j], "member="@),
        i == tokens.len() || spec_starts_with(tokens[i], "member="@),
    ensures
        spec_first_member(tokens) == if i == tokens.len() {
            None::<Seq<char>>
        } else {
            Some(tokens[i].skip("member="@.len() as int))
        },
    decreases i,
{
    if i == 0 {
    } else {
        assert(!spec_starts_with(tokens[0], "member="@));
        assert forall|j: int| 0 <= j < i - 1 implies !spec_starts_with(
            #[trigger] tokens.drop_first()[j],
            "member="@,
        ) by {
            assert(tokens.drop_first()[j] == tokens[j + 1]);
        }
        if i - 1 < tokens.drop_first().len() {
            assert(tokens.drop_first()[i - 1] == tokens[i]);
        }
        lemma_first_member_at(tokens.drop_first(), i - 1);
    }
}

/// What a monitor line names: for a method-call line, the trimmed member
/// name of its first `member=` token.
pub open spec fn spec_extract_method(line: Seq<char>) -> Option<Seq<char>> {
    if !spec_starts_with(line, "method call"@) {
        None
    } else {
        match spec_first_member(spec_split_ws(line)) {
            Some(member) => Some(spec_trim_quotes(member)),
            None => None,
        }
    }
}

/// Extracts the invoked member name from one line of the monitor stream.
pub fn extract_method(line: &str) -> (r: Option<String>)
    ensures
        r is Some <==> spec_extract_method(line@) is Some,
        r is Some ==> r->0@ == spec_extract_method(line@)->0,
{
    if !starts_with_str(line, "method call") {
        return None;
    }
    let tokens = split_whitespace_tokens(line);
    let n = tokens.len();
    let mut i: usize = 0;
    while i < n
        invariant
            0 <= i <= n,
            n == tokens@.len(),
            spec_starts_with(line@, "method call"@),
            tokens.deep_view() == spec_split_ws(line@),
            forall|j: int|
                0 <= j < i ==> !spec_starts_with(#[trigger] tokens.deep_view()[j], "member="@),
        decreases n - i,
    {
        let token = &tokens[i];
        proof {
            assert(tokens.deep_view()[i as int] == tokens@[i as int]@);
        }
        if starts_with_str(token.as_str(), "member=") {
            proof {
                reveal_strlit("member=");
                assert("member="@.len() == 7);
            }
            let token_len = token.as_str().unicode_len();
            let member = token.as_str().substring_char(7, token_len);
            proof {
                assert(member@ =~= tokens.deep_view()[i as int].skip("member="@.len() as int));
                lemma_first_member_at(tokens.deep_view(), i as int);
            }
            proof {
                assert(spec_first_member(spec_split_ws(line@)) == Some(member@));
                assert(spec_extract_method(line@) == Some(spec_trim_quotes(member@)));
            }
            let trimmed = trim_quotes(member);
            return Some(trimmed.to_owned());
        }
        i = i + 1;
    }
    proof {
        lemma_first_member_at(tokens.deep_view(), n as int);
    }
    None
}

/// The latency between a pending trigger and its focus outcome, clamped
/// to the representable range (and to zero where the clock went backwards).
pub open spec fn spec_latency(now_ms: i64, start_ms: i64) -> u64 {
    if now_ms >= start_ms {
        if now_ms - start_ms > u64::MAX {
            u64::MAX
        } else {
            (now_ms - start_ms) as u64
        }
    } else {
        0u64
    }
}

/// The whole watchdog state: activation, the monitor process health, the
/// last observed trigger and outcome, cumulative counts, the pending
/// correlations and the bounded latency ring buffer and notes.
pub struct WatchdogState {
    pub enabled: bool,
    pub monitor_running: bool,
    pub last_error: Option<String>,
    pub last_method: Option<String>,
    pub last_window: Option<String>,
    pub last_invoked_at_ms: Option<i64>,
    pub last_latency_ms: Option<u64>,
    pub last_within_deadline: Option<bool>,
    pub success_count: u64,
    pub deadline_miss_count: u64,
    pub pending: LabelMap<i64>,
    pub latencies: Vec<u64>,
    pub notes: Vec<String>,
}

/// The sum of a latency sample sequence.
pub open spec fn spec_sum(s: Seq<u64>) -> int
    decreases s.len(),
{
    if s.len() == 0 {
        0
    } else {
        spec_sum(s.drop_last()) + s.last()
    }
}

pub proof fn lemma_sum_bounds(s: Seq<u64>)
    ensures
        0 <= spec_sum(s) <= s.len() * (u64::MAX as int),
    decreases s.len(),
{
    if s.len() == 0 {
    } else {
        lemma_sum_bounds(s.drop_last());
        assert((s.len() - 1) * (u64::MAX as int) + (u64::MAX as int) == s.len() * (
        u64::MAX as int)) by (nonlinear_arith);
    }
}

impl WatchdogState {
    /// The ring buffer and the note list stay within their bounds.
    pub open spec fn wf(&self) -> bool {
        &&& self.latencies@.len() <= MAX_SAMPLES
        &&& self.notes@.len() <= MAX_NOTES
    }

    /// A fresh state: nothing observed, nothing pending, activation as
    /// decided at startup.
    pub fn new(enabled: bool) -> (r: Self)
        ensures
            r.wf(),
            r.enabled == enabled,
            r.monitor_running == false,
            r.last_error is None,
            r.last_method is None,
            r.last_window is None,
            r.last_invoked_at_ms is None,
            r.last_latency_ms is None,
            r.last_within_deadline is None,
            r.success_count == 0,
            r.deadline_miss_count == 0,
            forall|l: WindowLabel| #[trigger] r.pending.spec_get(l) is None,
            r.latencies@.len() == 0,
            r.notes@.len() == 0,
    {
        WatchdogState {
            enabled,
            monitor_running: false,
            last_error: None,
            last_method: None,
            last_window: None,
            last_invoked_at_ms: None,
            last_latency_ms: None,
            last_within_deadline: None,
            success_count: 0,
            deadline_miss_count: 0,
            pending: LabelMap::new(),
            latencies: Vec::new(),
            notes: Vec::new(),
        }
    }

    /// Appends a human-readable note, dropping the oldest beyond the cap.
    pub fn record_note(&mut self, note: String)
        requires
            old(self).wf(),
        ensures
            final(self).wf(),
            final(self).notes@ == if old(self).notes@.len() < MAX_NOTES {
                old(self).notes@.push(note)
            } else {
                old(self).notes@.push(note).skip(1)
            },
            final(self).enabled == old(self).enabled,
            final(self).monitor_running == old(self).monitor_running,
            final(self).last_error == old(self).last_error,
            final(self).last_method == old(self).last_method,
            final(self).last_window == old(self).last_window,
            final(self).last_invoked_at_ms == old(self).last_invoked_at_ms,
            final(self).last_latency_ms == old(self).last_latency_ms,
            final(self).last_within_deadline == old(self).last_within_deadline,
            final(self).success_count == old(self).success_count,
            final(self).deadline_miss_count == old(self).deadline_miss_count,
            final(self).pending == old(self).pending,
            final(self).latencies == old(self).latencies,
    {
        self.notes.push(note);
        if self.notes.len() > MAX_NOTES {
            self.notes.remove(0);
            proof {
                assert(self.notes@ =~= old(self).notes@.push(note).skip(1));
            }
        }
    }

    pub fn set_monitor_running(&mut self, running: bool)
        ensures
            *final(self) == (WatchdogState { monitor_running: running, ..*old(self) }),
    {
        self.monitor_running = running;
    }

    pub fn set_last_error(&mut self, error: Option<String>)
        ensures
            *final(self) == (WatchdogState { last_error: error, ..*old(self) }),
    {
        self.last_error = error;
    }

    /// Records one externally observed method call: a known method inserts a
    /// pending correlation for its surface at the given time; an unknown one
    /// changes nothing.
    pub fn observe_external_method(&mut self, method: &str, now_ms: i64)
        ensures
            spec_method_to_window(method@) is Some ==> {
                let label = spec_method_to_window(method@)->0;
                &&& final(self).last_method matches Some(m) && m@ == method@
                &&& final(self).last_window matches Some(w) && w@ == label.spec_str()
                &&& final(self).last_invoked_at_ms == Some(now_ms)
                &&& final(self).pending == old(self).pending.spec_set(label, now_ms)
                &&& final(self).enabled == old(self).enabled
                &&& final(self).monitor_running == old(self).monitor_running
                &&& final(self).last_error == old(self).last_error
                &&& final(self).last_latency_ms == old(self).last_latency_ms
                &&& final(self).last_within_deadline == old(self).last_within_deadline
                &&& final(self).success_count == old(self).success_count
                &&& final(self).deadline_miss_count == old(self).deadline_miss_count
                &&& final(self).latencies == old(self).latencies
                &&& final(self).notes == old(self).notes
            },
            spec_method_to_window(method@) is None ==> *final(self) == *old(self),
    {
        match method_to_window(method) {
            Some(label) => {
                self.last_method = Some(method.to_owned());
                self.last_window = Some(label.as_str().to_owned());
                self.last_invoked_at_ms = Some(now_ms);
                self.pending.set(label, now_ms);
            },
            None => {},
        }
    }

    /// Records that a window focus attempt has completed. With no pending
    /// entry for the label (or a label naming no surface, or the watchdog
    /// disabled) this is a no-op. Otherwise the pending entry is consumed,
    /// the latency classified as within the deadline exactly when it is at
    /// most 200 ms and the focus succeeded, the counts updated and the
    /// latency pushed into the ring buffer, evicting the oldest sample
    /// beyond fifty.
    pub fn record_focus_outcome(&mut self, label: &str, success: bool, now_ms: i64)
        requires
            old(self).wf(),
        ensures
            final(self).wf(),
            !old(self).enabled ==> *final(self) == *old(self),
            old(self).enabled && (WindowLabel::spec_from_str(label@) is None
                || old(self).pending.spec_get(WindowLabel::spec_from_str(label@)->0) is None)
                ==> *final(self) == *old(self),
            (old(self).enabled && WindowLabel::spec_from_str(label@) is Some && old(
                self,
            ).pending.spec_get(WindowLabel::spec_from_str(label@)->0) is Some) ==> {
                let window = WindowLabel::spec_from_str(label@)->0;
                let start = old(self).pending.spec_get(window)->0;
                let latency = spec_latency(now_ms, start);
                let within = latency <= DEADLINE_MS && success;
                &&& final(self).pending == old(self).pending.spec_removed(window)
                &&& final(self).last_latency_ms == Some(latency)
                &&& final(self).last_within_deadline == Some(within)
                &&& final(self).last_window matches Some(w) && w@ == label@
                &&& final(self).last_invoked_at_ms == Some(now_ms)
                &&& final(self).success_count == if within {
                    if old(self).success_count == u64::MAX {
                        u64::MAX
                    } else {
                        (old(self).success_count + 1) as u64
                    }
                } else {
                    old(self).success_count
                }
                &&& final(self).deadline_miss_count == if !within {
                    if old(self).deadline_miss_count == u64::MAX {
                        u64::MAX
                    } else {
                        (old(self).deadline_miss_count + 1) as u64
                    }
                } else {
                    old(self).deadline_miss_count
                }
                &&& final(self).latencies@ == if old(self).latencies@.len() < MAX_SAMPLES {
                    old(self).latencies@.push(latency)
                } else {
                    old(self).latencies@.push(latency).skip(1)
                }
                &&& final(self).enabled == old(self).enabled
                &&& final(self).monitor_running == old(self).monitor_running
                &&& final(self).last_error == old(self).last_error
                &&& final(self).last_method == old(self).last_method
                &&& final(self).notes == old(self).notes
            },
    {
        if !self.enabled {
            return ;
        }
        let window = match WindowLabel::from_label_str(label) {
            Some(w) => w,
            None => {
                return ;
            },
        };
        let start = match self.pending.remove(window) {
            Some(s) => s,
            None => {
                proof {
                    assert(self.pending == old(self).pending);
                }
                return ;
            },
        };
        let latency: u64 = if now_ms >= start {
            let diff: i128 = (now_ms as i128) - (start as i128);
            if diff > (u64::MAX as i128) {
                u64::MAX
            } else {
                diff as u64
            }
        } else {
            0
        };
        let within = latency <= DEADLINE_MS && success;
        self.last_latency_ms = Some(latency);
        self.last_within_deadline = Some(within);
        self.last_window = Some(label.to_owned());
        self.last_invoked_at_ms = Some(now_ms);
        if within {
            self.success_count = self.success_count.saturating_add(1);
        } else {
            self.deadline_miss_count = self.deadline_miss_count.saturating_add(1);
        }
        self.latencies.push(latency);
        if self.latencies.len() > MAX_SAMPLES {
            self.latencies.remove(0);
            proof {
                assert(self.latencies@ =~= old(self).latencies@.push(latency).skip(1));
            }
        }
    }
}


/// Whether the watchdog should activate: not explicitly disabled, and a
/// Hyprland session detected.
pub fn should_enable_watchdog(disabled_by_env: bool, hyprland_signature: bool) -> (r: bool)
    ensures
        r == (!disabled_by_env && hyprland_signature),
{
    !disabled_by_env && hyprland_signature
}

proof fn lemma_sum_small(s: Seq<u64>)
    requires
        s.len() <= 50,
    ensures
        0 <= spec_sum(s) <= 50 * (u64::MAX as int),
{
    lemma_sum_bounds(s);
    assert(s.len() * (u64::MAX as int) <= 50 * (u64::MAX as int)) by (nonlinear_arith)
        requires s.len() <= 50;
}

/// Snapshot of the current watchdog diagnostics. The latency ring buffer is
/// summarized by its sum and sample count; the mean latency is their
/// quotient, absent exactly when the buffer is empty.
#[derive(Debug, Clone)]
pub struct WatchdogSnapshot {
    pub enabled: bool,
    pub monitor_running: bool,
    pub last_method: Option<String>,
    pub last_window: Option<String>,
    pub last_invoked_at: Option<String>,
    pub last_latency_ms: Option<u64>,
    pub last_within_deadline: Option<bool>,
    pub success_count: u64,
    pub deadline_miss_count: u64,
    pub pending_count: usize,
    pub latency_sum: u128,
    pub latency_samples: usize,
    pub last_error: Option<String>,
    pub notes: Vec<String>,
}

impl WatchdogState {
    /// The diagnostics snapshot. A disabled watchdog reports a permanently
    /// disabled shape carrying only its notes and last error. For an enabled
    /// one, every field mirrors the state; the sample count is zero exactly
    /// when the ring buffer is empty, and the sum is over at most the last
    /// fifty samples.
    pub fn diagnostics_snapshot(&self) -> (r: WatchdogSnapshot)
        requires
            self.wf(),
        ensures
            r.enabled == self.enabled,
            r.notes@ == self.notes@,
            r.last_error == self.last_error,
            !self.enabled ==> {
                &&& r.monitor_running == false
                &&& r.last_method is None
                &&& r.last_window is None
                &&& r.last_invoked_at is None
                &&& r.last_latency_ms is None
                &&& r.last_within_deadline is None
                &&& r.success_count == 0
                &&& r.deadline_miss_count == 0
                &&& r.pending_count == 0
                &&& r.latency_sum == 0
                &&& r.latency_samples == 0
            },
            self.enabled ==> {
                &&& r.monitor_running == self.monitor_running
                &&& r.last_method == self.last_method
                &&& r.last_window == self.last_window
                &&& (r.last_invoked_at is Some <==> self.last_invoked_at_ms is Some)
                &&& (self.last_invoked_at_ms is Some ==> r.last_invoked_at->0@ == rfc3339_of(
                    self.last_invoked_at_ms->0 as int,
                ))
                &&& r.last_latency_ms == self.last_latency_ms
                &&& r.last_within_deadline == self.last_within_deadline
                &&& r.success_count == self.success_count
                &&& r.deadline_miss_count == self.deadline_miss_count
                &&& r.pending_count == self.pending.spec_count()
                &&& r.latency_sum == spec_sum(self.latencies@)
                &&& r.latency_samples == self.latencies@.len()
                &&& (r.latency_samples == 0 <==> self.latencies@.len() == 0)
                &&& r.latency_samples <= MAX_SAMPLES
            },
    {
        if !self.enabled {
            return WatchdogSnapshot {
                enabled: false,
                monitor_running: false,
                last_method: None,
                last_window: None,
                last_invoked_at: None,
                last_latency_ms: None,
                last_within_deadline: None,
                success_count: 0,
                deadline_miss_count: 0,
                pending_count: 0,
                latency_sum: 0,
                latency_samples: 0,
                last_error: clone_opt_string(&self.last_error),
                notes: clone_string_vec(&self.notes),
            };
        }
        let samples = self.latencies.len();
        let mut sum: u128 = 0;
        let mut i: usize = 0;
        while i < samples
            invariant
                0 <= i <= samples,
                samples == self.latencies@.len(),
                samples <= 50,
                sum as int == spec_sum(self.latencies@.subrange(0, i as int)),
            decreases samples - i,
        {
            let v = self.latencies[i];
            proof {
                let next = self.latencies@.subrange(0, i + 1);
                assert(next.drop_last() =~= self.latencies@.subrange(0, i as int));
                assert(next.last() == self.latencies@[i as int]);
                lemma_sum_small(next);
            }
            sum = sum + (v as u128);
            i = i + 1;
        }
        proof {
            assert(self.latencies@.subrange(0, samples as int) =~= self.latencies@);
        }
        let last_invoked_at = match self.last_invoked_at_ms {
            Some(ms) => Some(format_rfc3339_ms(ms)),
            None => None,
        };
        WatchdogSnapshot {
            enabled: true,
            monitor_running: self.monitor_running,
            last_method: clone_opt_string(&self.last_method),
            last_window: clone_opt_string(&self.last_window),
            last_invoked_at,
            last_latency_ms: self.last_latency_ms,
            last_within_deadline: self.last_within_deadline,
            success_count: self.success_count,
            deadline_miss_count: self.deadline_miss_count,
            pending_count: self.pending.count(),
            latency_sum: sum,
            latency_samples: samples,
            last_error: clone_opt_string(&self.last_error),
            notes: clone_string_vec(&self.notes),
        }
    }
}

} // verus!
