//! The world seed, derived from a user-entered seed string.
//!
//! The derivation must be stable: the same string always yields the same
//! seed. It feeds the string's UTF-8 bytes, then the one-byte terminator that
//! `std::hash::Hash` for strings appends, to a `std::hash::DefaultHasher`,
//! every instance of which hashes identically.

use vstd::prelude::*;

use std::hash::Hasher;
use vstd::std_specs::hash::DefaultHasherAdditionalSpecFns;
use vstd::string::StringSliceAdditionalSpecFns;
use vstd::utf8::encode_utf8;

verus! {

/// The seed every chunk generator stream ultimately derives from.
#[derive(Clone, Copy, PartialEq, Eq, Structural, Debug)]
pub struct Seed(pub u64);

impl Seed {
    /// Derive the seed from a seed string; the same string always yields the
    /// same seed. The hasher absorbs the string's UTF-8 bytes and then the
    /// `0xff` terminator, the same stream hashing a string feeds it.
    pub fn from_string(input: String) -> (s: Self)
        ensures
            s == Seed(
                std::hash::DefaultHasher::spec_finish(
                    Seq::<Seq<u8>>::empty().push(encode_utf8(input@)).push(seq![0xffu8]),
                ),
            ),
    {
        let mut hasher = std::hash::DefaultHasher::new();
        let bytes = input.as_str().as_bytes();
        proof {
            assert(bytes@ == encode_utf8(input@));
        }
        hasher.write(bytes);
        let mut terminator: Vec<u8> = Vec::new();
        terminator.push(0xff);
        proof {
            assert(terminator@ =~= seq![0xffu8]);
        }
        hasher.write(terminator.as_slice());
        Seed(hasher.finish())
    }
}

impl Default for Seed {
    fn default() -> (s: Self)
        ensures
            s == Seed(0u64),
    {
        Seed(0)
    }
}

/// A seed string as the player entered it, not yet hashed.
#[derive(Clone, PartialEq, Eq, Debug)]
pub struct SeedString(pub String);

} // verus!
