//! Small string helpers shared by the parsing and window modules:
//! whitespace classification, trimming, tokenization and substring search.

use vstd::prelude::*;

verus! {

/// Relies on String::push: appends the given character to the end of the
/// string.
pub assume_specification[ String::push ](s: &mut String, c: char)
    ensures
        final(s)@ == old(s)@.push(c),
;

/// Compares two string slices by their character sequences.
pub fn str_eq(a: &str, b: &str) -> (r: bool)
    ensures
        r == (a@ == b@),
{
    let sa = a.to_owned();
    let sb = b.to_owned();
    sa == sb
}

/// The Unicode `White_Space` set, the classification `char::is_whitespace`
/// uses and `split_whitespace` splits on.
pub open spec fn spec_is_ws(c: char) -> bool {
    ||| c == ' '
    ||| c == '\t'
    ||| c == '\n'
    ||| c == '\r'
    ||| c == '\u{b}'
    ||| c == '\u{c}'
    ||| c == '\u{85}'
    ||| c == '\u{a0}'
    ||| c == '\u{1680}'
    ||| ('\u{2000}' <= c && c <= '\u{200a}')
    ||| c == '\u{2028}'
    ||| c == '\u{2029}'
    ||| c == '\u{202f}'
    ||| c == '\u{205f}'
    ||| c == '\u{3000}'
}

pub fn is_whitespace_char(c: char) -> (r: bool)
    ensures
        r == spec_is_ws(c),
{
    c == ' ' || c == '\t' || c == '\n' || c == '\r' || c == '\u{b}' || c == '\u{c}'
        || c == '\u{85}' || c == '\u{a0}' || c == '\u{1680}'
        || ('\u{2000}' <= c && c <= '\u{200a}') || c == '\u{2028}' || c == '\u{2029}'
        || c == '\u{202f}' || c == '\u{205f}' || c == '\u{3000}'
}

/// The whitespace predicate as a first-class spec function, so that every
/// spec and lemma speaks of one and the same term.
pub open spec fn ws_pred() -> spec_fn(char) -> bool {
    |c: char| spec_is_ws(c)
}

pub open spec fn non_ws_pred() -> spec_fn(char) -> bool {
    |c: char| !spec_is_ws(c)
}

/// How many characters at the front of `s` satisfy `pred`.
pub open spec fn count_leading(s: Seq<char>, pred: spec_fn(char) -> bool) -> nat
    decreases s.len(),
{
    if s.len() == 0 {
        0
    } else if pred(s[0]) {
        (1 + count_leading(s.drop_first(), pred)) as nat
    } else {
        0
    }
}

pub proof fn lemma_count_leading_is_index(s: Seq<char>, pred: spec_fn(char) -> bool, i: int)
    requires
        0 <= i <= s.len(),
        forall|k: int| 0 <= k < i ==> pred(s[k]),
        i == s.len() || !pred(s[i]),
    ensures
        count_leading(s, pred) == i,
    decreases i,
{
    if i == 0 {
    } else {
        assert(pred(s[0]));
        assert forall|k: int| 0 <= k < i - 1 implies pred(s.drop_first()[k]) by {
            assert(s.drop_first()[k] == s[k + 1]);
        }
        if i - 1 < s.drop_first().len() {
            assert(s.drop_first()[i - 1] == s[i]);
        }
        lemma_count_leading_is_index(s.drop_first(), pred, i - 1);
    }
}

pub proof fn lemma_count_leading_props(s: Seq<char>, pred: spec_fn(char) -> bool)
    ensures
        count_leading(s, pred) <= s.len(),
        forall|k: int| 0 <= k < count_leading(s, pred) ==> pred(s[k]),
        count_leading(s, pred) < s.len() ==> !pred(s[count_leading(s, pred) as int]),
    decreases s.len(),
{
    if s.len() == 0 {
    } else if pred(s[0]) {
        lemma_count_leading_props(s.drop_first(), pred);
        assert forall|k: int| 0 <= k < count_leading(s, pred) implies pred(s[k]) by {
            if k > 0 {
                assert(s.drop_first()[k - 1] == s[k]);
            }
        }
        if count_leading(s, pred) < s.len() {
            assert(s.drop_first()[count_leading(s, pred) - 1] == s[count_leading(s, pred) as int]);
        }
    } else {
    }
}

/// How many characters at the back of `s` satisfy `pred`.
pub open spec fn count_trailing(s: Seq<char>, pred: spec_fn(char) -> bool) -> nat
    decreases s.len(),
{
    if s.len() == 0 {
        0
    } else if pred(s.last()) {
        (1 + count_trailing(s.drop_last(), pred)) as nat
    } else {
        0
    }
}

pub proof fn lemma_count_trailing_is_index(s: Seq<char>, pred: spec_fn(char) -> bool, j: int)
    requires
        0 <= j <= s.len(),
        forall|k: int| j <= k < s.len() ==> pred(s[k]),
        j == 0 || !pred(s[j - 1]),
    ensures
        count_trailing(s, pred) == s.len() - j,
    decreases s.len() - j,
{
    if j == s.len() {
        if s.len() > 0 {
            assert(!pred(s.last()));
        }
    } else {
        assert(pred(s.last()));
        assert forall|k: int| j <= k < s.drop_last().len() implies pred(s.drop_last()[k]) by {
            assert(s.drop_last()[k] == s[k]);
        }
        if j > 0 {
            assert(s.drop_last()[j - 1] == s[j - 1]);
        }
        lemma_count_trailing_is_index(s.drop_last(), pred, j);
    }
}

/// `s` with leading and trailing whitespace removed, as `str::trim` removes it.
pub open spec fn spec_trim(s: Seq<char>) -> Seq<char> {
    let a = count_leading(s, ws_pred()) as int;
    let b = count_trailing(s, ws_pred()) as int;
    if a == s.len() {
        Seq::empty()
    } else {
        s.subrange(a, s.len() - b)
    }
}

/// Trims Unicode whitespace from both ends.
pub fn trim(s: &str) -> (r: &str)
    ensures
        r@ == spec_trim(s@),
{
    let n = s.unicode_len();
    let mut i: usize = 0;
    while i < n && is_whitespace_char(s.get_char(i))
        invariant
            0 <= i <= n,
            n == s@.len(),
            forall|k: int| 0 <= k < i ==> #[trigger] ws_pred()(s@[k]),
        decreases n - i,
    {
        proof {
            assert(ws_pred()(s@[i as int]));
        }
        i = i + 1;
    }
    proof {
        if i < n {
            assert(!ws_pred()(s@[i as int]));
        }
        lemma_count_leading_is_index(s@, ws_pred(), i as int);
    }
    if i == n {
        proof {
            reveal_strlit("");
            assert(spec_trim(s@) =~= ""@);
        }
        ""
    } else {
        let mut j: usize = n;
        while j > i && is_whitespace_char(s.get_char(j - 1))
            invariant
                i < j <= n,
                i < n,
                n == s@.len(),
                !ws_pred()(s@[i as int]),
                forall|k: int| j <= k < n ==> #[trigger] ws_pred()(s@[k]),
            decreases j,
        {
            proof {
                assert(ws_pred()(s@[j - 1]));
            }
            j = j - 1;
        }
        proof {
            assert(!ws_pred()(s@[j - 1]));
            lemma_count_trailing_is_index(s@, ws_pred(), j as int);
        }
        s.substring_char(i, j)
    }
}

/// Splitting on whitespace, as `str::split_whitespace` does: the maximal
/// non-whitespace runs of `s`, in order.
pub open spec fn spec_split_ws(s: Seq<char>) -> Seq<Seq<char>>
    decreases s.len(),
    via spec_split_ws_decreases
{
    if s.len() == 0 {
        Seq::empty()
    } else if spec_is_ws(s[0]) {
        spec_split_ws(s.drop_first())
    } else {
        let t = count_leading(s, non_ws_pred()) as int;
        seq![s.subrange(0, t)] + spec_split_ws(s.skip(t))
    }
}

#[via_fn]
proof fn spec_split_ws_decreases(s: Seq<char>) {
    if s.len() != 0 && !spec_is_ws(s[0]) {
        lemma_count_leading_props(s, non_ws_pred());
        assert(non_ws_pred()(s[0]));
    }
}

proof fn lemma_split_ws_skip_ws(s: Seq<char>, i: int)
    requires
        0 <= i < s.len(),
        spec_is_ws(s[i]),
    ensures
        spec_split_ws(s.skip(i)) == spec_split_ws(s.skip(i + 1)),
{
    assert(s.skip(i)[0] == s[i]);
    assert(s.skip(i).drop_first() =~= s.skip(i + 1));
}

fn split_ws_from(s: &str, from: usize, n: usize) -> (r: Vec<String>)
    requires
        from <= s@.len(),
        n == s@.len(),
    ensures
        r.deep_view() == spec_split_ws(s@.skip(from as int)),
    decreases s@.len() - from,
{
    let mut i: usize = from;
    while i < n && is_whitespace_char(s.get_char(i))
        invariant
            from <= i <= n,
            n == s@.len(),
            spec_split_ws(s@.skip(from as int)) == spec_split_ws(s@.skip(i as int)),
        decreases n - i,
    {
        proof {
            lemma_split_ws_skip_ws(s@, i as int);
        }
        i = i + 1;
    }
    if i == n {
        let r: Vec<String> = Vec::new();
        proof {
            assert(s@.skip(n as int) =~= Seq::<char>::empty());
            assert(r.deep_view() =~= Seq::<Seq<char>>::empty());
        }
        return r;
    }
    let mut j: usize = i;
    while j < n && !is_whitespace_char(s.get_char(j))
        invariant
            i <= j <= n,
            n == s@.len(),
            forall|k: int| i <= k < j ==> #[trigger] non_ws_pred()(s@[k]),
        decreases n - j,
    {
        proof {
            assert(non_ws_pred()(s@[j as int]));
        }
        j = j + 1;
    }
    proof {
        let tail = s@.skip(i as int);
        assert forall|k: int| 0 <= k < j - i implies #[trigger] non_ws_pred()(tail[k]) by {
            assert(tail[k] == s@[i + k]);
        }
        if j < n {
            assert(tail[j - i] == s@[j as int]);
            assert(!non_ws_pred()(tail[j - i]));
        }
        lemma_count_leading_is_index(tail, non_ws_pred(), j - i);
        assert(!spec_is_ws(tail[0]));
    }
    let token = s.substring_char(i, j).to_owned();
    let mut rest = split_ws_from(s, j, n);
    rest.insert(0, token);
    proof {
        let tail = s@.skip(i as int);
        assert(tail.subrange(0, j - i) =~= s@.subrange(i as int, j as int));
        assert(tail.skip(j - i) =~= s@.skip(j as int));
        assert(rest.deep_view() =~= seq![s@.subrange(i as int, j as int)] + spec_split_ws(
            s@.skip(j as int),
        ));
    }
    rest
}

/// The whitespace-separated tokens of `s`.
pub fn split_whitespace_tokens(s: &str) -> (r: Vec<String>)
    ensures
        r.deep_view() == spec_split_ws(s@),
{
    let n = s.unicode_len();
    let r = split_ws_from(s, 0, n);
    proof {
        assert(s@.skip(0) =~= s@);
    }
    r
}

/// Whether `needle` occurs in `hay` as a contiguous run.
pub open spec fn spec_contains_seq(hay: Seq<char>, needle: Seq<char>) -> bool {
    exists|i: int|
        0 <= i && i + needle.len() <= hay.len() && #[trigger] hay.subrange(i, i + needle.len())
            == needle
}

/// Substring search, as `str::contains` performs it.
pub fn str_contains(hay: &str, needle: &str) -> (r: bool)
    ensures
        r == spec_contains_seq(hay@, needle@),
{
    let hn = hay.unicode_len();
    let nn = needle.unicode_len();
    if nn > hn {
        return false;
    }
    let mut i: usize = 0;
    while i <= hn - nn
        invariant
            0 <= i <= hn - nn + 1,
            nn <= hn,
            hn == hay@.len(),
            nn == needle@.len(),
            forall|p: int|
                0 <= p < i ==> #[trigger] hay@.subrange(p, p + needle@.len()) != needle@,
        decreases hn - i,
    {
        let mut k: usize = 0;
        let mut matches = true;
        while k < nn
            invariant
                0 <= k <= nn,
                i + nn <= hn,
                hn == hay@.len(),
                nn == needle@.len(),
                matches <==> (forall|q: int| 0 <= q < k ==> hay@[i + q] == needle@[q]),
            decreases nn - k,
        {
            if hay.get_char(i + k) != needle.get_char(k) {
                proof {
                    assert(hay@[i + k as int] != needle@[k as int]);
                }
                matches = false;
                k = nn;
            } else {
                k = k + 1;
            }
        }
        proof {
            let sub = hay@.subrange(i as int, i + needle@.len());
            if matches {
                assert(sub =~= needle@);
            } else {
                let bad = choose|q: int| 0 <= q < nn && hay@[i + q] != needle@[q];
                assert(sub[bad] == hay@[i + bad]);
                assert(sub != needle@);
            }
        }
        if matches {
            return true;
        }
        i = i + 1;
    }
    proof {
        assert forall|p: int| 0 <= p && p + needle@.len() <= hay@.len() implies #[trigger] hay@
            .subrange(p, p + needle@.len()) != needle@ by {
            assert(0 <= p < i);
        }
    }
    false
}

/// The predicate holding exactly on one character, as a first-class spec
/// function, so that every spec and lemma speaks of one and the same term.
pub open spec fn eq_pred(c: char) -> spec_fn(char) -> bool {
    |x: char| x == c
}

/// `s` with every run of `c` removed from both ends, as
/// `str::trim_matches(c)` removes them.
pub open spec fn spec_trim_char(s: Seq<char>, c: char) -> Seq<char> {
    let a = count_leading(s, eq_pred(c)) as int;
    let b = count_trailing(s, eq_pred(c)) as int;
    if a == s.len() {
        Seq::empty()
    } else {
        s.subrange(a, s.len() - b)
    }
}

/// Trims every occurrence of `c` from both ends.
pub fn trim_char_ends<'a>(s: &'a str, c: char) -> (r: &'a str)
    ensures
        r@ == spec_trim_char(s@, c),
{
    let n = s.unicode_len();
    let mut i: usize = 0;
    while i < n && s.get_char(i) == c
        invariant
            0 <= i <= n,
            n == s@.len(),
            forall|k: int| 0 <= k < i ==> #[trigger] eq_pred(c)(s@[k]),
        decreases n - i,
    {
        proof {
            assert(eq_pred(c)(s@[i as int]));
        }
        i = i + 1;
    }
    proof {
        if i < n {
            assert(!eq_pred(c)(s@[i as int]));
        }
        lemma_count_leading_is_index(s@, eq_pred(c), i as int);
    }
    if i == n {
        proof {
            reveal_strlit("");
            assert(spec_trim_char(s@, c) =~= ""@);
        }
        ""
    } else {
        let mut j: usize = n;
        while j > i && s.get_char(j - 1) == c
            invariant
                i < j <= n,
                i < n,
                n == s@.len(),
                !eq_pred(c)(s@[i as int]),
                forall|k: int| j <= k < n ==> #[trigger] eq_pred(c)(s@[k]),
            decreases j,
        {
            proof {
                assert(eq_pred(c)(s@[j - 1]));
            }
            j = j - 1;
        }
        proof {
            assert(!eq_pred(c)(s@[j - 1]));
            lemma_count_trailing_is_index(s@, eq_pred(c), j as int);
        }
        s.substring_char(i, j)
    }
}

/// `s` with every trailing `c` removed, as `str::trim_end_matches(c)`
/// removes them.
pub open spec fn spec_trim_char_end(s: Seq<char>, c: char) -> Seq<char> {
    s.subrange(0, s.len() - count_trailing(s, eq_pred(c)))
}

/// Trims every trailing occurrence of `c`.
pub fn trim_char_end<'a>(s: &'a str, c: char) -> (r: &'a str)
    ensures
        r@ == spec_trim_char_end(s@, c),
{
    let n = s.unicode_len();
    let mut j: usize = n;
    while j > 0 && s.get_char(j - 1) == c
        invariant
            0 <= j <= n,
            n == s@.len(),
            forall|k: int| j <= k < n ==> #[trigger] eq_pred(c)(s@[k]),
        decreases j,
    {
        proof {
            assert(eq_pred(c)(s@[j - 1]));
        }
        j = j - 1;
    }
    proof {
        if j > 0 {
            assert(!eq_pred(c)(s@[j - 1]));
        }
        lemma_count_trailing_is_index(s@, eq_pred(c), j as int);
    }
    s.substring_char(0, j)
}

/// `s` with every occurrence of `from` replaced by `to`.
pub open spec fn spec_replace_char(s: Seq<char>, from: char, to: char) -> Seq<char>
    decreases s.len(),
{
    if s.len() == 0 {
        Seq::empty()
    } else {
        spec_replace_char(s.drop_last(), from, to).push(
            if s.last() == from {
                to
            } else {
                s.last()
            },
        )
    }
}

/// Replaces every occurrence of `from` with `to`, as
/// `str::replace(from, to)` does for single characters.
pub fn replace_char(s: &str, from: char, to: char) -> (r: String)
    ensures
        r@ == spec_replace_char(s@, from, to),
{
    let n = s.unicode_len();
    let mut out = String::new();
    let mut i: usize = 0;
    while i < n
        invariant
            0 <= i <= n,
            n == s@.len(),
            out@ == spec_replace_char(s@.subrange(0, i as int), from, to),
        decreases n - i,
    {
        let c = s.get_char(i);
        proof {
            let next = s@.subrange(0, i + 1);
            assert(next.drop_last() =~= s@.subrange(0, i as int));
            assert(next.last() == s@[i as int]);
        }
        if c == from {
            out.push(to);
        } else {
            out.push(c);
        }
        i = i + 1;
    }
    proof {
        assert(s@.subrange(0, n as int) =~= s@);
    }
    out
}

/// Whether `p` is a prefix of `s`.
pub open spec fn spec_starts_with(s: Seq<char>, p: Seq<char>) -> bool {
    s.len() >= p.len() && s.subrange(0, p.len() as int) == p
}

/// Prefix test, as `str::starts_with` performs it.
pub fn starts_with_str(s: &str, p: &str) -> (r: bool)
    ensures
        r == spec_starts_with(s@, p@),
{
    let sn = s.unicode_len();
    let pn = p.unicode_len();
    if pn > sn {
        return false;
    }
    let mut k: usize = 0;
    while k < pn
        invariant
            0 <= k <= pn,
            pn <= sn,
            sn == s@.len(),
            pn == p@.len(),
            forall|q: int| 0 <= q < k ==> s@[q] == p@[q],
        decreases pn - k,
    {
        if s.get_char(k) != p.get_char(k) {
            proof {
                assert(s@.subrange(0, p@.len() as int)[k as int] != p@[k as int]);
            }
            return false;
        }
        k = k + 1;
    }
    proof {
        assert(s@.subrange(0, p@.len() as int) =~= p@);
    }
    true
}

/// An element-wise copy of a vector of strings.
pub fn clone_string_vec(v: &Vec<String>) -> (r: Vec<String>)
    ensures
        r@ == v@,
{
    let n = v.len();
    let mut out: Vec<String> = Vec::new();
    let mut i: usize = 0;
    while i < n
        invariant
            0 <= i <= n,
            n == v@.len(),
            out@ == v@.subrange(0, i as int),
        decreases n - i,
    {
        out.push(v[i].clone());
        proof {
            assert(out@ =~= v@.subrange(0, i + 1));
        }
        i = i + 1;
    }
    proof {
        assert(out@ =~= v@);
    }
    out
}

/// A copy of an optional string.
pub fn clone_opt_string(v: &Option<String>) -> (r: Option<String>)
    ensures
        r == *v,
{
    match v {
        Some(s) => Some(s.clone()),
        None => None,
    }
}

/// What `str::to_lowercase` returns; the result depends on the characters
/// alone.
pub uninterp spec fn lower_of(s: Seq<char>) -> Seq<char>;

/// Relies on str::to_lowercase: Unicode lowercasing of every character.
#[verifier::external_body]
pub fn to_lowercase(s: &str) -> (r: String)
    ensures
        r@ == lower_of(s@),
{
    s.to_lowercase()
}

} // verus!
