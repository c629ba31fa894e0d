//! Desktop theme text processing: parsing the color definitions of a theme's
//! stylesheet and normalizing theme names for lookup. Reading the theme
//! files from disk stays with the caller; everything here is a function of
//! the text alone.

use vstd::prelude::*;
use crate::strutil::{
    count_leading, lemma_count_leading_is_index, lower_of, replace_char, spec_replace_char,
    spec_split_ws, spec_starts_with, spec_trim, spec_trim_char, spec_trim_char_end, starts_with_str,
    str_eq, split_whitespace_tokens, to_lowercase, trim, trim_char_end, trim_char_ends,
};

verus! {

pub open spec fn non_newline_pred() -> spec_fn(char) -> bool {
    |c: char| c != '\n'
}

/// A line with one trailing carriage return removed, as `str::lines` strips
/// it.
pub open spec fn spec_strip_cr(line: Seq<char>) -> Seq<char> {
    if line.len() > 0 && line.last() == '\r' {
        line.drop_last()
    } else {
        line
    }
}

/// The lines of `s`, split at newlines with carriage returns stripped and
/// without a final empty line for a trailing newline, as `str::lines` yields
/// them.
pub open spec fn spec_lines(s: Seq<char>) -> Seq<Seq<char>>
    decreases s.len(),
    via spec_lines_decreases
{
    if s.len() == 0 {
        Seq::empty()
    } else {
        let nl = count_leading(s, non_newline_pred()) as int;
        let line = spec_strip_cr(s.subrange(0, nl));
        if nl == s.len() {
            seq![line]
        } else {
            seq![line] + spec_lines(s.skip(nl + 1))
        }
    }
}

#[via_fn]
proof fn spec_lines_decreases(s: Seq<char>) {
    if s.len() != 0 {
        crate::strutil::lemma_count_leading_props(s, non_newline_pred());
    }
}

fn split_lines_from(s: &str, from: usize, n: usize) -> (r: Vec<String>)
    requires
        from <= s@.len(),
        n == s@.len(),
    ensures
        r.deep_view() == spec_lines(s@.skip(from as int)),
    decreases s@.len() - from,
{
    if from == n {
        let r: Vec<String> = Vec::new();
        proof {
            assert(s@.skip(n as int) =~= Seq::<char>::empty());
            assert(r.deep_view() =~= Seq::<Seq<char>>::empty());
        }
        return r;
    }
    let ghost tail = s@.skip(from as int);
    let mut i: usize = from;
    while i < n && s.get_char(i) != '\n'
        invariant
            from <= i <= n,
            n == s@.len(),
            forall|k: int| from <= k < i ==> #[trigger] non_newline_pred()(s@[k]),
        decreases n - i,
    {
        proof {
            assert(non_newline_pred()(s@[i as int]));
        }
        i = i + 1;
    }
    proof {
        assert forall|k: int| 0 <= k < i - from implies #[trigger] non_newline_pred()(tail[k]) by {
            assert(tail[k] == s@[from + k]);
        }
        if i < n {
            assert(tail[i - from] == s@[i as int]);
            assert(!non_newline_pred()(tail[i - from]));
        }
        lemma_count_leading_is_index(tail, non_newline_pred(), i - from);
    }
    let line_end = if i > from && s.get_char(i - 1) == '\r' {
        i - 1
    } else {
        i
    };
    let line = s.substring_char(from, line_end).to_owned();
    proof {
        let raw_line = tail.subrange(0, i - from);
        assert(raw_line =~= s@.subrange(from as int, i as int));
        if i > from && s@[i - 1] == '\r' {
            assert(raw_line.last() == s@[i - 1]);
            assert(line@ =~= spec_strip_cr(raw_line));
        } else {
            assert(line@ =~= spec_strip_cr(raw_line));
        }
    }
    if i == n {
        let mut r: Vec<String> = Vec::new();
        r.push(line);
        proof {
            assert(r.deep_view() =~= seq![spec_strip_cr(tail.subrange(0, i - from))]);
        }
        r
    } else {
        let mut rest = split_lines_from(s, i + 1, n);
        rest.insert(0, line);
        proof {
            assert(tail.skip(i - from + 1) =~= s@.skip(i + 1));
            assert(rest.deep_view() =~= seq![
                spec_strip_cr(tail.subrange(0, i - from)),
            ] + spec_lines(s@.skip(i + 1)));
        }
        rest
    }
}

/// The lines of `s`, as `str::lines` yields them.
pub fn split_lines(s: &str) -> (r: Vec<String>)
    ensures
        r.deep_view() == spec_lines(s@),
{
    let n = s.unicode_len();
    let r = split_lines_from(s, 0, n);
    proof {
        assert(s@.skip(0) =~= s@);
    }
    r
}

/// What one stylesheet line defines: for a trimmed line carrying a color
/// definition with at least a name and a value token, the name (semicolons
/// trimmed, dashes replaced by underscores) and the value (trailing
/// semicolons, then quotes, trimmed); nothing for any other line.
pub open spec fn spec_color_definition(line: Seq<char>) -> Option<(Seq<char>, Seq<char>)> {
    let t = spec_trim(line);
    if !spec_starts_with(t, "@define-color"@) {
        None
    } else {
        let parts = spec_split_ws(t);
        if parts.len() < 3 {
            None
        } else {
            Some(
                (
                    spec_replace_char(spec_trim_char(spec_trim(parts[1]), ';'), '-', '_'),
                    spec_trim_char(spec_trim_char_end(parts[2], ';'), '"'),
                ),
            )
        }
    }
}

/// The color definitions of a sequence of lines, in order.
pub open spec fn spec_color_definitions(lines: Seq<Seq<char>>) -> Seq<(Seq<char>, Seq<char>)>
    decreases lines.len(),
{
    if lines.len() == 0 {
        Seq::empty()
    } else {
        let rest = spec_color_definitions(lines.drop_first());
        match spec_color_definition(lines[0]) {
            Some(entry) => seq![entry] + rest,
            None => rest,
        }
    }
}

fn color_definitions_from(lines: &Vec<String>, from: usize) -> (r: Vec<(String, String)>)
    requires
        from <= lines@.len(),
    ensures
        r.deep_view() == spec_color_definitions(lines.deep_view().skip(from as int)),
    decreases lines@.len() - from,
{
    let n = lines.len();
    if from == n {
        let r: Vec<(String, String)> = Vec::new();
        proof {
            assert(lines.deep_view().skip(n as int) =~= Seq::<Seq<char>>::empty());
            assert(r.deep_view() =~= Seq::<(Seq<char>, Seq<char>)>::empty());
        }
        return r;
    }
    proof {
        assert(lines.deep_view()[from as int] == lines@[from as int]@);
        assert(lines.deep_view().skip(from as int)[0] == lines.deep_view()[from as int]);
        assert(lines.deep_view().skip(from as int).drop_first() =~= lines.deep_view().skip(
            from + 1,
        ));
    }
    let line = trim(lines[from].as_str());
    let entry: Option<(String, String)> = if !starts_with_str(line, "@define-color") {
        None
    } else {
        let parts = split_whitespace_tokens(line);
        if parts.len() < 3 {
            None
        } else {
            proof {
                assert(parts.deep_view()[1] == parts@[1]@);
                assert(parts.deep_view()[2] == parts@[2]@);
            }
            let key = replace_char(trim_char_ends(trim(parts[1].as_str()), ';'), '-', '_');
            let value = trim_char_ends(trim_char_end(parts[2].as_str(), ';'), '"').to_owned();
            Some((key, value))
        }
    };
    let mut rest = color_definitions_from(lines, from + 1);
    match entry {
        Some(entry) => {
            rest.insert(0, entry);
            proof {
                assert(rest.deep_view() =~= seq![
                    spec_color_definition(lines.deep_view().skip(from as int)[0])->0,
                ] + spec_color_definitions(lines.deep_view().skip(from + 1)));
            }
            rest
        },
        None => rest,
    }
}

/// Parses the color definitions out of a theme stylesheet: one (name, value)
/// pair per `@define-color` line, in order.
pub fn parse_walker_colors(content: &str) -> (r: Vec<(String, String)>)
    ensures
        r.deep_view() == spec_color_definitions(spec_lines(content@)),
{
    let lines = split_lines(content);
    let r = color_definitions_from(&lines, 0);
    proof {
        assert(lines.deep_view().skip(0) =~= lines.deep_view());
    }
    r
}

/// The value stored for a color name: the last definition wins, as later
/// lines overwrite earlier ones.
pub open spec fn spec_color_lookup(
    colors: Seq<(Seq<char>, Seq<char>)>,
    key: Seq<char>,
) -> Option<Seq<char>>
    decreases colors.len(),
{
    if colors.len() == 0 {
        None
    } else if colors.last().0 == key {
        Some(colors.last().1)
    } else {
        spec_color_lookup(colors.drop_last(), key)
    }
}

proof fn lemma_color_lookup_at(colors: Seq<(Seq<char>, Seq<char>)>, key: Seq<char>, i: int)
    requires
        0 <= i <= colors.len(),
        forall|j: int| i <= j < colors.len() ==> (#[trigger] colors[j]).0 != key,
    ensures
        spec_color_lookup(colors, key) == spec_color_lookup(colors.subrange(0, i), key),
    decreases colors.len() - i,
{
    if i == colors.len() {
        assert(colors.subrange(0, i) =~= colors);
    } else {
        assert(colors[colors.len() - 1].0 != key);
        assert(colors.last() == colors[colors.len() - 1]);
        assert forall|j: int| i <= j < colors.drop_last().len() implies (#[trigger] colors.drop_last()[j]).0
            != key by {
            assert(colors.drop_last()[j] == colors[j]);
        }
        lemma_color_lookup_at(colors.drop_last(), key, i);
        assert(colors.drop_last().subrange(0, i) =~= colors.subrange(0, i));
    }
}

/// Looks a color name up in parsed definitions; the last definition wins.
pub fn palette_color(colors: &Vec<(String, String)>, key: &str) -> (r: Option<String>)
    ensures
        r is Some <==> spec_color_lookup(colors.deep_view(), key@) is Some,
        r is Some ==> r->0@ == spec_color_lookup(colors.deep_view(), key@)->0,
{
    let n = colors.len();
    let mut i: usize = n;
    while i > 0
        invariant
            0 <= i <= n,
            n == colors@.len(),
            forall|j: int| i <= j < n ==> (#[trigger] colors.deep_view()[j]).0 != key@,
        decreases i,
    {
        proof {
            assert(colors.deep_view()[i - 1] == (colors@[i - 1].0@, colors@[i - 1].1@));
        }
        let (name, value) = &colors[i - 1];
        if str_eq(name.as_str(), key) {
            proof {
                lemma_color_lookup_at(colors.deep_view(), key@, i as int);
                let prefix = colors.deep_view().subrange(0, i as int);
                assert(prefix.last() == colors.deep_view()[i - 1]);
            }
            return Some(value.clone());
        }
        i = i - 1;
    }
    proof {
        lemma_color_lookup_at(colors.deep_view(), key@, 0);
        assert(colors.deep_view().subrange(0, 0) =~= Seq::<(Seq<char>, Seq<char>)>::empty());
    }
    None
}

/// The canonical form a theme name is compared under: lowercased, with
/// spaces turned into dashes.
pub fn normalize_theme_name(name: &str) -> (r: String)
    ensures
        r@ == spec_replace_char(lower_of(name@), ' ', '-'),
{
    let lowered = to_lowercase(name);
    replace_char(lowered.as_str(), ' ', '-')
}

/// Whether a theme directory entry names the desired theme: the lowercased
/// entry equals the desired name's canonical form.
pub fn theme_name_matches(entry: &str, desired: &str) -> (r: bool)
    ensures
        r == (lower_of(entry@) == spec_replace_char(lower_of(desired@), ' ', '-')),
{
    let lowered_entry = to_lowercase(entry);
    let normalized = normalize_theme_name(desired);
    str_eq(lowered_entry.as_str(), normalized.as_str())
}

} // verus!
