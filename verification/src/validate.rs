//! Input validation for the snippet and tag entry points: what is checked
//! before anything is handed to the persistence collaborator.

use vstd::prelude::*;
use crate::strutil::{spec_trim, trim};

verus! {

/// Validates the name and content of a snippet: both must be non-empty
/// after trimming. The error text names the first field that fails.
pub fn validate_snippet_input(name: &str, content: &str) -> (r: Result<(), String>)
    ensures
        r is Ok <==> spec_trim(name@).len() > 0 && spec_trim(content@).len() > 0,
        spec_trim(name@).len() == 0 ==> (r matches Err(e) && e@
            == "Snippet name is required and cannot be empty"@),
        spec_trim(name@).len() > 0 && spec_trim(content@).len() == 0 ==> (r matches Err(e) && e@
            == "Snippet content is required and cannot be empty"@),
{
    if trim(name).is_empty() {
        Err("Snippet name is required and cannot be empty".to_owned())
    } else if trim(content).is_empty() {
        Err("Snippet content is required and cannot be empty".to_owned())
    } else {
        Ok(())
    }
}

/// The tag names that take part in an association: each trimmed, the ones
/// empty after trimming dropped.
pub open spec fn spec_normalized_tags(tags: Seq<Seq<char>>) -> Seq<Seq<char>>
    decreases tags.len(),
{
    if tags.len() == 0 {
        Seq::empty()
    } else {
        let rest = spec_normalized_tags(tags.drop_first());
        if spec_trim(tags[0]).len() == 0 {
            rest
        } else {
            seq![spec_trim(tags[0])] + rest
        }
    }
}

fn normalize_tag_names_from(tags: &Vec<String>, from: usize) -> (r: Vec<String>)
    requires
        from <= tags@.len(),
    ensures
        r.deep_view() == spec_normalized_tags(tags.deep_view().skip(from as int)),
    decreases tags@.len() - from,
{
    let n = tags.len();
    if from == n {
        let r: Vec<String> = Vec::new();
        proof {
            assert(tags.deep_view().skip(n as int) =~= Seq::<Seq<char>>::empty());
            assert(r.deep_view() =~= Seq::<Seq<char>>::empty());
        }
        return r;
    }
    proof {
        assert(tags.deep_view()[from as int] == tags@[from as int]@);
        assert(tags.deep_view().skip(from as int)[0] == tags.deep_view()[from as int]);
        assert(tags.deep_view().skip(from as int).drop_first() =~= tags.deep_view().skip(
            from + 1,
        ));
    }
    let trimmed = trim(tags[from].as_str());
    let mut rest = normalize_tag_names_from(tags, from + 1);
    if trimmed.is_empty() {
        rest
    } else {
        rest.insert(0, trimmed.to_owned());
        proof {
            assert(rest.deep_view() =~= seq![
                spec_trim(tags.deep_view().skip(from as int)[0]),
            ] + spec_normalized_tags(tags.deep_view().skip(from + 1)));
        }
        rest
    }
}

/// Trims every tag name and drops the ones that are empty afterwards, in
/// order, as the association step treats them.
pub fn normalize_tag_names(tags: &Vec<String>) -> (r: Vec<String>)
    ensures
        r.deep_view() == spec_normalized_tags(tags.deep_view()),
{
    let r = normalize_tag_names_from(tags, 0);
    proof {
        assert(tags.deep_view().skip(0) =~= tags.deep_view());
    }
    r
}

} // verus!
