//! The 64-bit key under which a normalized URL is stored in the visited set.

use vstd::prelude::*;
use vstd::std_specs::hash::DefaultHasherAdditionalSpecFns;
use std::collections::hash_map::DefaultHasher;
use std::hash::Hasher;

verus! {

/// The key of a string: what the default hasher yields for its UTF-8 bytes.
pub open spec fn hash_of(s: Seq<char>) -> u64 {
    DefaultHasher::spec_finish(seq![vstd::utf8::encode_utf8(s)])
}

/// The 64-bit key of `s`, computed with the standard library's default hasher.
pub fn hash_string(s: &str) -> (r: u64)
    ensures
        r == hash_of(s@),
{
    let mut hasher = DefaultHasher::new();
    hasher.write(s.as_bytes());
    proof {
        assert(hasher@ =~= seq![vstd::utf8::encode_utf8(s@)]);
    }
    hasher.finish()
}

} // verus!
