//! Deciding whether a set of user roles meets a comma-separated list of
//! allowed roles.
use vstd::prelude::*;
use crate::text::{role_list, split_trimmed, views};

verus! {

/// Some role of the comma-separated list `allowed`, trimmed, is one of
/// `user`. Matching is exact: no case folding, no hierarchy.
pub open spec fn grants(user: Seq<Seq<char>>, allowed: Seq<char>) -> bool {
    exists|j: int| 0 <= j < role_list(allowed).len() && user.contains(#[trigger] role_list(allowed)[j])
}

/// Whether `x` is one of the strings of `v`.
pub fn has_role(v: &Vec<String>, x: &String) -> (r: bool)
    ensures
        r == views(v@).contains(x@),
{
    let mut i: usize = 0;
    while i < v.len()
        invariant
            i <= v.len(),
            forall|l: int| 0 <= l < i ==> v@[l]@ != x@,
        decreases v.len() - i,
    {
        if v[i] == *x {
            assert(views(v@)[i as int] == x@);
            return true;
        }
        i = i + 1;
    }
    assert(!views(v@).contains(x@)) by {
        if views(v@).contains(x@) {
            let l = choose|l: int| 0 <= l < views(v@).len() && views(v@)[l] == x@;
            assert(v@[l]@ == x@);
        }
    }
    false
}

/// Whether some role of the comma-separated list `allowed` is among
/// `user_roles`.
pub fn any_role_allowed(user_roles: &Vec<String>, allowed: &str) -> (r: bool)
    ensures
        r == grants(views(user_roles@), allowed@),
{
    let wanted = split_trimmed(allowed);
    let mut j: usize = 0;
    while j < wanted.len()
        invariant
            j <= wanted.len(),
            views(wanted@) == role_list(allowed@),
            forall|l: int| 0 <= l < j ==> !views(user_roles@).contains(#[trigger] role_list(allowed@)[l]),
        decreases wanted.len() - j,
    {
        if has_role(user_roles, &wanted[j]) {
            assert(role_list(allowed@)[j as int] == wanted@[j as int]@);
            return true;
        }
        assert(role_list(allowed@)[j as int] == views(wanted@)[j as int]);
        j = j + 1;
    }
    false
}

} // verus!
