//! Order of the keys that a `BTreeMap` hands out.

use vstd::prelude::*;
use vstd::std_specs::cmp::OrdSpec;

verus! {

/// In an increasing sequence, an earlier element is less than a later one.
pub proof fn lemma_increasing<K: Ord>(s: Seq<K>, i: int, j: int)
    requires
        vstd::std_specs::btree::increasing_seq(s),
        vstd::laws_cmp::obeys_cmp::<K>(),
        0 <= i < j < s.len(),
    ensures
        s[i].cmp_spec(&s[j]) is Less,
{
    vstd::std_specs::btree::axiom_increasing_seq_meaning::<K>(s);
}

} // verus!
