//! Small helpers for comparing and building text.

use vstd::prelude::*;

verus! {

/// Whether two string slices hold the same characters.
pub fn same_text(left: &str, right: &str) -> (same: bool)
    ensures
        same == (left@ == right@),
{
    let left_owned = left.to_owned();
    let right_owned = right.to_owned();
    left_owned == right_owned
}

/// `head`, `body` and `tail` written one after the other.
pub fn joined(head: &str, body: &str, tail: &str) -> (text: String)
    ensures
        text@ == head@ + body@ + tail@,
{
    let mut text = head.to_owned();
    text.append(body);
    text.append(tail);
    text
}

} // verus!
