//! Lists of types.

use vstd::prelude::*;

use crate::primitives::Type;

verus! {

/// Appends the types of `more` to `types`.
pub fn append_types(types: &mut Vec<Type>, more: &Vec<Type>)
    ensures
        final(types)@ == old(types)@ + more@,
{
    for i in 0..more.len()
        invariant
            types@ == old(types)@ + more@.take(i as int),
    {
        types.push(more[i]);
        assert(types@ =~= old(types)@ + more@.take(i + 1));
    }
    assert(more@.take(more@.len() as int) =~= more@);
}

/// A copy of a list of types.
pub fn copy_types(types: &Vec<Type>) -> (copy: Vec<Type>)
    ensures
        copy@ == types@,
{
    let mut copy: Vec<Type> = Vec::new();
    append_types(&mut copy, types);
    copy
}

/// Whether two lists hold the same types in the same order.
pub fn same_types(a: &Vec<Type>, b: &Vec<Type>) -> (same: bool)
    ensures
        same == (a@ == b@),
{
    if a.len() != b.len() {
        return false;
    }
    for i in 0..a.len()
        invariant
            a@.len() == b@.len(),
            forall|j: int| 0 <= j < i ==> a@[j] == b@[j],
    {
        if a[i] != b[i] {
            return false;
        }
    }
    assert(a@ =~= b@);
    true
}

} // verus!
