//! Optional text, taken by its characters.

use vstd::prelude::*;

verus! {

/// The characters of an optional string.
pub open spec fn text_of(s: Option<String>) -> Option<Seq<char>> {
    match s {
        Some(t) => Some(t@),
        None => None,
    }
}

/// The characters of an optional string slice.
pub open spec fn str_text_of(s: Option<&str>) -> Option<Seq<char>> {
    match s {
        Some(t) => Some(t@),
        None => None,
    }
}

/// An owned copy of an optional string slice.
pub fn owned_text(s: Option<&str>) -> (res: Option<String>)
    ensures
        text_of(res) == str_text_of(s),
{
    match s {
        Some(t) => Some(t.to_owned()),
        None => None,
    }
}

/// An owned copy of an optional string.
pub fn copy_text(s: &Option<String>) -> (res: Option<String>)
    ensures
        text_of(res) == text_of(*s),
{
    match s {
        Some(t) => Some(t.clone()),
        None => None,
    }
}

} // verus!
