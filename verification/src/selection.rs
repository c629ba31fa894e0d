//! Selection capture decisions for the quick-add flow: which clipboard read
//! wins, and how long to wait before the captured text is announced to the
//! dialog.

use vstd::prelude::*;
use crate::error::AppError;
use crate::strutil::spec_trim;

verus! {

/// Picks the captured text from the primary-selection read and the clipboard
/// fallback: the primary read wins when it yielded text that is non-empty
/// after trimming; otherwise the fallback is consulted the same way; with
/// neither, nothing was selected.
pub fn choose_selection(primary: Result<String, String>, fallback: Result<String, String>) -> (r:
    Result<String, AppError>)
    ensures
        (primary matches Ok(t) && spec_trim(t@).len() > 0) ==> (r matches Ok(s) && s == primary
            ->Ok_0),
        !(primary matches Ok(t) && spec_trim(t@).len() > 0) && (fallback matches Ok(t)
            && spec_trim(t@).len() > 0) ==> (r matches Ok(s) && s == fallback->Ok_0),
        !(primary matches Ok(t) && spec_trim(t@).len() > 0) && !(fallback matches Ok(t)
            && spec_trim(t@).len() > 0) ==> (r matches Err(e) && e matches AppError::NotFound(m)
            && m@ == "No text selected"@),
{
    match primary {
        Ok(text) => {
            let empty = crate::strutil::trim(text.as_str()).is_empty();
            if !empty {
                return Ok(text);
            }
        },
        Err(_) => {},
    }
    match fallback {
        Ok(text) => {
            let empty = crate::strutil::trim(text.as_str()).is_empty();
            if !empty {
                return Ok(text);
            }
        },
        Err(_) => {},
    }
    Err(AppError::NotFound("No text selected".to_owned()))
}

/// How long the quick-add dialog is given before the captured text event is
/// emitted: a freshly created surface needs a full second to mount its
/// listeners; an existing one two hundred milliseconds.
pub fn quick_add_event_delay_ms(was_created: bool) -> (r: u64)
    ensures
        r == if was_created {
            1000u64
        } else {
            200u64
        },
{
    if was_created {
        1000
    } else {
        200
    }
}

} // verus!
