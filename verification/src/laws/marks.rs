//! Numbers that tell names apart.
use vstd::prelude::*;

use crate::text::{fold, lower, same_name};

verus! {

/// A letter of a name but for case, and nothing beyond its end.
pub open spec fn letter(name: Seq<char>, k: int) -> int {
    if 0 <= k < name.len() { lower(name[k]) } else { 0 }
}

/// A number that tells names apart: their length and some letters.
#[verifier::opaque]
pub open spec fn mark(name: Seq<char>) -> int {
    let m = name.len() as int;
    let m = m * 200 + letter(name, 0);
    let m = m * 200 + letter(name, 1);
    let m = m * 200 + letter(name, 3);
    let m = m * 200 + letter(name, 4);
    let m = m * 200 + letter(name, 5);
    let m = m * 200 + letter(name, 6);
    let m = m * 200 + letter(name, 7);
    let m = m * 200 + letter(name, 8);
    let m = m * 200 + letter(name, 12);
    let m = m * 200 + letter(name, 13);
    let m = m * 200 + letter(name, 14);
    let m = m * 200 + letter(name, 17);
    m
}

/// A name has the same mark however its letters are cased.
pub proof fn marks_ignore_case()
    ensures
        forall|a: Seq<char>, b: Seq<char>| #[trigger] same_name(a, b) ==> mark(a) == mark(b),
{
    reveal(same_name);
    reveal(mark);
    assert forall|a: Seq<char>, b: Seq<char>| #[trigger] same_name(a, b) implies mark(a) == mark(b) by {
        assert(fold(a).len() == fold(b).len());
        if 0 < a.len() {
            assert(fold(a)[0] == fold(b)[0]);
        }
        if 1 < a.len() {
            assert(fold(a)[1] == fold(b)[1]);
        }
        if 3 < a.len() {
            assert(fold(a)[3] == fold(b)[3]);
        }
        if 4 < a.len() {
            assert(fold(a)[4] == fold(b)[4]);
        }
        if 5 < a.len() {
            assert(fold(a)[5] == fold(b)[5]);
        }
        if 6 < a.len() {
            assert(fold(a)[6] == fold(b)[6]);
        }
        if 7 < a.len() {
            assert(fold(a)[7] == fold(b)[7]);
        }
        if 8 < a.len() {
            assert(fold(a)[8] == fold(b)[8]);
        }
        if 12 < a.len() {
            assert(fold(a)[12] == fold(b)[12]);
        }
        if 13 < a.len() {
            assert(fold(a)[13] == fold(b)[13]);
        }
        if 14 < a.len() {
            assert(fold(a)[14] == fold(b)[14]);
        }
        if 17 < a.len() {
            assert(fold(a)[17] == fold(b)[17]);
        }
    }
}

/// A name is itself.
pub proof fn a_name_is_itself()
    ensures
        forall|a: Seq<char>| #[trigger] same_name(a, a),
{
    reveal(same_name);
}

} // verus!
