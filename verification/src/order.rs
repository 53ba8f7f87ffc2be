//! The order of the integer keys that the library's maps and sets rely on.

use vstd::prelude::*;

verus! {

/// Bytes, 32-bit integers and pairs of 32-bit integers are ordered as the
/// ordered collections of the standard library expect of their keys.
pub proof fn lemma_integer_keys_ordered()
    ensures
        vstd::laws_cmp::obeys_cmp::<u8>(),
        vstd::laws_cmp::obeys_cmp::<u32>(),
        vstd::laws_cmp::obeys_cmp::<(u32, u32)>(),
{
    broadcast use vstd::laws_cmp::group_laws_cmp;

}

} // verus!
