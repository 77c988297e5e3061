//! The order of integer keys as an ordered map walks them.

use vstd::prelude::*;
use vstd::std_specs::btree::increasing_seq;
use vstd::std_specs::cmp::OrdSpec;

verus! {

/// 16-bit keys that an ordered map walks come one after the other in
/// rising order.
pub proof fn lemma_increasing_u16(keys: Seq<u16>)
    requires
        increasing_seq(keys),
    ensures
        forall|i: int, j: int| 0 <= i < j < keys.len() ==> keys[i] < keys[j],
{
    broadcast use {
        vstd::std_specs::btree::group_btree_axioms,
        vstd::laws_cmp::group_laws_cmp,
    };

    assert forall|i: int, j: int| 0 <= i < j < keys.len() implies keys[i] < keys[j] by {
        assert(keys[i].cmp_spec(&keys[j]) is Less);
    }
}

} // verus!
