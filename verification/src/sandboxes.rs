//! Computations over protected values that run in isolation.
use sha2::{Digest, Sha256};
use vstd::prelude::*;

verus! {

/// The lowercase hexadecimal SHA-256 digest of the UTF-8 bytes of `email`
/// followed by those of `secret`.
pub uninterp spec fn sha256_hex(email: Seq<char>, secret: Seq<char>) -> Seq<char>;

/// A digit of lowercase hexadecimal.
pub open spec fn is_lower_hex(c: char) -> bool {
    ('0' <= c && c <= '9') || ('a' <= c && c <= 'f')
}

/// A user's API key: the hex SHA-256 digest of their email followed by the
/// deployment secret (`Sha256` fed the two strings in turn, then formatted
/// with `{:x}`, two lowercase hex digits per byte of the 32-byte digest).
/// The digest itself is named, not restated.
#[verifier::external_body]
pub fn hash(inputs: (String, String)) -> (r: String)
    ensures
        r@ == sha256_hex(inputs.0@, inputs.1@),
        r@.len() == 64,
        forall|i: int| 0 <= i < r@.len() ==> is_lower_hex(#[trigger] r@[i]),
{
    let digest = Sha256::new().chain_update(&inputs.0).chain_update(&inputs.1).finalize();
    format!("{:x}", digest)
}

} // verus!
