//! Names, and the numbers that stand for them.
//!
//! The files that describe the game call everything by name. The catalogues
//! hold each thing under a number made from its name, which is quicker to
//! compare and to copy.

use core::hash::Hasher;
use std::collections::hash_map::DefaultHasher;
use vstd::prelude::*;
use vstd::std_specs::hash::DefaultHasherAdditionalSpecFns;
use vstd::utf8::encode_utf8;

verus! {

/// The number that stands for `name`: the digest of its bytes.
pub open spec fn spec_name_hash(name: Seq<char>) -> u64 {
    DefaultHasher::spec_finish(seq![encode_utf8(name)])
}

/// The number that stands for `name`.
pub fn name_hash(name: &str) -> (value: u64)
    ensures
        value == spec_name_hash(name@),
{
    let mut hasher = DefaultHasher::new();
    hasher.write(name.as_bytes());
    hasher.finish()
}

} // verus!
