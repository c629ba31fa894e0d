//! The query-side text processing of snippet search: the tag-filter prefix,
//! the full-text query built from the user's input, and the query length
//! guard.

use vstd::prelude::*;
use vstd::string::StringSliceAdditionalSpecFns;
use crate::strutil::{
    count_leading, is_whitespace_char, lemma_count_leading_is_index, spec_is_ws, spec_split_ws,
    spec_trim, split_whitespace_tokens, trim,
};

verus! {

pub open spec fn non_colon_pred() -> spec_fn(char) -> bool {
    |c: char| c != ':'
}

/// What parsing a tag filter yields: with a first colon preceded by a
/// non-empty run without whitespace, the run as tag and the trimmed
/// remainder; otherwise no tag and the query unchanged.
pub open spec fn spec_parse_tag_filter(q: Seq<char>) -> (Option<Seq<char>>, Seq<char>) {
    let cp = count_leading(q, non_colon_pred()) as int;
    if cp < q.len() && cp > 0 && (forall|k: int| 0 <= k < cp ==> !spec_is_ws(q[k])) {
        (Some(q.subrange(0, cp)), spec_trim(q.skip(cp + 1)))
    } else {
        (None, q)
    }
}

/// Extracts a leading "tag:" filter from a search query.
pub fn parse_tag_filter<'a>(query: &'a str) -> (r: (Option<&'a str>, &'a str))
    ensures
        r.0 is Some <==> spec_parse_tag_filter(query@).0 is Some,
        r.0 is Some ==> r.0->0@ == spec_parse_tag_filter(query@).0->0,
        r.1@ == spec_parse_tag_filter(query@).1,
{
    let n = query.unicode_len();
    let mut i: usize = 0;
    while i < n && query.get_char(i) != ':'
        invariant
            0 <= i <= n,
            n == query@.len(),
            forall|k: int| 0 <= k < i ==> #[trigger] non_colon_pred()(query@[k]),
        decreases n - i,
    {
        proof {
            assert(non_colon_pred()(query@[i as int]));
        }
        i = i + 1;
    }
    proof {
        if i < n {
            assert(!non_colon_pred()(query@[i as int]));
        }
        lemma_count_leading_is_index(query@, non_colon_pred(), i as int);
    }
    if i == n || i == 0 {
        return (None, query);
    }
    let mut k: usize = 0;
    while k < i
        invariant
            0 <= k <= i,
            0 < i < n,
            n == query@.len(),
            count_leading(query@, non_colon_pred()) == i as int,
            forall|p: int| 0 <= p < k ==> !spec_is_ws(query@[p]),
        decreases i - k,
    {
        if is_whitespace_char(query.get_char(k)) {
            proof {
                assert(spec_is_ws(query@[k as int]));
            }
            return (None, query);
        }
        k = k + 1;
    }
    let tag = query.substring_char(0, i);
    let rest = query.substring_char(i + 1, n);
    proof {
        assert(rest@ =~= query@.skip(i + 1));
    }
    (Some(tag), trim(rest))
}

/// The characters stripped from the user's input before it is handed to the
/// full-text engine: phrase quotes, wildcards and grouping.
pub open spec fn fts_special_pred() -> spec_fn(char) -> bool {
    |c: char| c == '"' || c == '*' || c == '(' || c == ')'
}

/// The input with the special characters removed.
pub open spec fn spec_remove_special(s: Seq<char>) -> Seq<char>
    decreases s.len(),
{
    if s.len() == 0 {
        Seq::empty()
    } else if fts_special_pred()(s.last()) {
        spec_remove_special(s.drop_last())
    } else {
        spec_remove_special(s.drop_last()).push(s.last())
    }
}

/// The tokens joined as prefix searches: each token gets a trailing
/// wildcard, and tokens are joined with OR.
pub open spec fn spec_fts_join(tokens: Seq<Seq<char>>) -> Seq<char>
    decreases tokens.len(),
{
    if tokens.len() == 0 {
        Seq::empty()
    } else if tokens.len() == 1 {
        tokens[0] + "*"@
    } else {
        tokens[0] + "*"@ + " OR "@ + spec_fts_join(tokens.drop_first())
    }
}

/// The full-text query for the user's input: special characters removed,
/// each whitespace-separated token turned into a prefix search, joined with
/// OR.
pub open spec fn spec_build_fts5_query(q: Seq<char>) -> Seq<char> {
    spec_fts_join(spec_split_ws(spec_remove_special(q)))
}

fn is_fts_special(c: char) -> (r: bool)
    ensures
        r == fts_special_pred()(c),
{
    c == '"' || c == '*' || c == '(' || c == ')'
}

fn fts_join_from(tokens: &Vec<String>, from: usize) -> (r: String)
    requires
        from <= tokens@.len(),
    ensures
        r@ == spec_fts_join(tokens.deep_view().skip(from as int)),
    decreases tokens@.len() - from,
{
    let n = tokens.len();
    if from == n {
        proof {
            assert(tokens.deep_view().skip(n as int) =~= Seq::<Seq<char>>::empty());
        }
        return String::new();
    }
    let mut s = tokens[from].clone();
    s.append("*");
    proof {
        assert(tokens.deep_view()[from as int] == tokens@[from as int]@);
    }
    if from + 1 == n {
        proof {
            let tail = tokens.deep_view().skip(from as int);
            assert(tail.len() == 1);
            assert(tail[0] == tokens.deep_view()[from as int]);
        }
        s
    } else {
        s.append(" OR ");
        let rest = fts_join_from(tokens, from + 1);
        s.append(rest.as_str());
        proof {
            let tail = tokens.deep_view().skip(from as int);
            assert(tail.len() > 1);
            assert(tail[0] == tokens.deep_view()[from as int]);
            assert(tail.drop_first() =~= tokens.deep_view().skip(from + 1));
        }
        s
    }
}

/// Prepares the user's search input for the full-text engine: escapes by
/// removal, prefix matching per token, OR across tokens.
pub fn build_fts5_query(query: &str) -> (r: String)
    ensures
        r@ == spec_build_fts5_query(query@),
{
    let n = query.unicode_len();
    let mut filtered = String::new();
    let mut i: usize = 0;
    while i < n
        invariant
            0 <= i <= n,
            n == query@.len(),
            filtered@ == spec_remove_special(query@.subrange(0, i as int)),
        decreases n - i,
    {
        let c = query.get_char(i);
        proof {
            let next = query@.subrange(0, i + 1);
            assert(next.drop_last() =~= query@.subrange(0, i as int));
            assert(next.last() == query@[i as int]);
        }
        if !is_fts_special(c) {
            filtered.push(c);
        }
        i = i + 1;
    }
    proof {
        assert(query@.subrange(0, n as int) =~= query@);
    }
    let tokens = split_whitespace_tokens(filtered.as_str());
    let r = fts_join_from(&tokens, 0);
    proof {
        assert(tokens.deep_view().skip(0) =~= tokens.deep_view());
    }
    r
}

/// The number of results a search returns when the caller names no limit.
pub const DEFAULT_SEARCH_LIMIT: i64 = 50;

/// The largest result limit a caller may ask for.
pub const MAX_SEARCH_LIMIT: i64 = 1000;

/// The effective result limit: the caller's wish, defaulted to fifty and
/// clamped into [1, 1000].
pub fn clamp_search_limit(limit: Option<i64>) -> (r: i64)
    ensures
        r == ({
            let l = if limit is Some {
                limit->0 as int
            } else {
                50int
            };
            if l < 1 {
                1int
            } else if l > 1000 {
                1000int
            } else {
                l
            }
        }),
{
    let l = match limit {
        Some(l) => l,
        None => DEFAULT_SEARCH_LIMIT,
    };
    if l < 1 {
        1
    } else if l > MAX_SEARCH_LIMIT {
        MAX_SEARCH_LIMIT
    } else {
        l
    }
}

/// Guards the search entry point: a query over a thousand bytes is refused
/// with the invalid-input message; anything shorter passes through.
pub fn validate_search_query_length(query: &str) -> (r: Result<(), String>)
    ensures
        r is Ok <==> query.spec_bytes().len() as usize <= 1000,
        r matches Err(e) ==> e@ == "Invalid input: "@ + "Search query too long (max 1000 characters)"@,
{
    if query.len() > 1000 {
        let e = crate::error::AppError::InvalidInput(
            "Search query too long (max 1000 characters)".to_owned(),
        );
        Err(e.message())
    } else {
        Ok(())
    }
}

} // verus!
