//! Membership tests on lists of text.

use vstd::prelude::*;

verus! {

/// `needle` is one of `items`.
pub open spec fn has_text(items: Seq<String>, needle: Seq<char>) -> bool {
    exists|i: int| 0 <= i < items.len() && (#[trigger] items[i])@ == needle
}

/// Some text occurs in both lists.
pub open spec fn share_text(left: Seq<String>, right: Seq<String>) -> bool {
    exists|i: int, j: int|
        0 <= i < left.len() && 0 <= j < right.len() && (#[trigger] left[i])@ == (
        #[trigger] right[j])@
}

/// Whether `needle` is one of `items`.
pub fn contains_text(items: &Vec<String>, needle: &String) -> (found: bool)
    ensures
        found == has_text(items@, needle@),
{
    let n: usize = items.len();
    let mut i: usize = 0;
    while i < n
        invariant
            n == items@.len(),
            i <= n,
            forall|j: int| 0 <= j < i ==> (#[trigger] items@[j])@ != needle@,
        decreases n - i,
    {
        if items[i] == *needle {
            return true;
        }
        i += 1;
    }
    false
}

/// Whether some text occurs in both lists.
pub fn shares_text(left: &Vec<String>, right: &Vec<String>) -> (found: bool)
    ensures
        found == share_text(left@, right@),
{
    let n: usize = left.len();
    let mut i: usize = 0;
    while i < n
        invariant
            n == left@.len(),
            i <= n,
            forall|j: int| 0 <= j < i ==> !has_text(right@, (#[trigger] left@[j])@),
        decreases n - i,
    {
        if contains_text(right, &left[i]) {
            return true;
        }
        i += 1;
    }
    false
}

} // verus!
