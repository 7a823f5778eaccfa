//! Credential hashing: a salted SHA3-256 digest rendered as lowercase hex.
use sha3::Digest;
use vstd::prelude::*;

verus! {

/// The SHA3-256 digest of the UTF-8 bytes of a string, rendered as lowercase
/// hex (two digits per byte). A fixed function of the input alone.
pub uninterp spec fn sha3_256_hex(input: Seq<char>) -> Seq<char>;

/// The digest a stored credential is compared against: SHA3-256 over the
/// input with the process-wide salt appended, in lowercase hex.
pub open spec fn salted_digest(input: Seq<char>, salt: Seq<char>) -> Seq<char> {
    sha3_256_hex(input + salt)
}

/// Relies on `sha3::Sha3_256` (`new`, `update`, `finalize`) and std's
/// lowercase-hex formatting of the 32-byte digest: the result is a
/// deterministic function of the input bytes alone, 64 hex digits long.
#[verifier::external_body]
fn sha3_hex(input: &str) -> (r: String)
    ensures
        r@ == sha3_256_hex(input@),
        r@.len() == 64,
{
    let mut hasher = sha3::Sha3_256::new();
    hasher.update(input.as_bytes());
    format!("{:x}", hasher.finalize())
}

/// Computes the salted credential digest: SHA3-256 over `input` followed by
/// `salt`, as lowercase hex, 64 digits. Deterministic: equal inputs and
/// salts give equal digests.
pub fn digest_with_salt(input: &str, salt: &str) -> (r: String)
    ensures
        r@ == salted_digest(input@, salt@),
        r@.len() == 64,
{
    let mut joined = input.to_owned();
    joined.append(salt);
    sha3_hex(joined.as_str())
}

} // verus!
