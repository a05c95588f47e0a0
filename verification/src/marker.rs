//! The marker annotation recognizer.

use vstd::prelude::*;
use crate::model::Annotation;
use crate::model::has_marker;
use crate::model::is_marker;

verus! {

/// Decides whether a declaration bearing `attrs` is marked as a variant of
/// the group named `group`: some annotation must be a named list whose path
/// renders exactly to `enum_builder_variant` and whose argument tokens render
/// exactly to the group's name. Absence of a match is a normal outcome, not
/// an error.
pub fn valid_variant(group: &String, attrs: &Vec<Annotation>) -> (r: bool)
    ensures
        r == has_marker(attrs@, group@),
{
    let marker = String::from_str("enum_builder_variant");
    let mut i: usize = 0;
    while i < attrs.len()
        invariant
            i <= attrs.len(),
            marker@ == "enum_builder_variant"@,
            forall|j: int| 0 <= j < i ==> !is_marker(attrs@[j], group@),
        decreases attrs.len() - i,
    {
        let a = &attrs[i];
        if a.is_list && a.path == marker && a.args == *group {
            assert(is_marker(attrs@[i as int], group@));
            return true;
        }
        i = i + 1;
    }
    false
}

} // verus!
