//! Trusted access to host facilities.
//!
//! Everything here either asks the host a question whose answer depends on
//! the world outside the program (the disk, the clock, randomness) or calls
//! an outside crate whose result only a name can describe.  Each item says
//! above it which outside function it relies on; nothing else in the crate
//! is taken on trust.

use vstd::prelude::*;
use sha2::Digest;

verus! {

/// The SHA-256 digest of a byte sequence.  Applied only by the contract of
/// [`sha256_bytes`]; the library never restates what the digest is.
pub uninterp spec fn sha256_of(data: Seq<u8>) -> Seq<u8>;

/// Relies on `sha2::Sha256` through `digest::Digest::digest`: the digest is
/// a function of the input bytes alone and is exactly 32 bytes long.
#[verifier::external_body]
pub(crate) fn sha256_bytes(data: &Vec<u8>) -> (r: Vec<u8>)
    ensures
        r@ == sha256_of(data@),
        r@.len() == 32,
{
    sha2::Sha256::digest(data.as_slice()).to_vec()
}

/// Relies on `ulid::Ulid::generate` and `Ulid::to_string`: a fresh
/// identifier rendered as 26 characters of Crockford base32 (digits and
/// upper-case ASCII letters).  The value depends on the clock and on
/// randomness, so nothing more is promised of it.
#[verifier::external_body]
pub(crate) fn new_ulid() -> (r: String)
    ensures
        r@.len() == 26,
        r.is_ascii(),
{
    ulid::Ulid::generate().to_string()
}

/// Relies on `chrono::Utc::now` and `DateTime::to_rfc3339`: the current
/// wall-clock instant rendered as RFC 3339 text — a full date, a `T`, a
/// full time and a colon offset, so at least 25 characters.  The value
/// depends on the clock, so nothing more is promised of it.
#[verifier::external_body]
pub(crate) fn now_rfc3339() -> (r: String)
    ensures
        r@.len() >= 25,
{
    chrono::Utc::now().to_rfc3339()
}

/// Relies on `String::from_utf8`: succeeds exactly on valid UTF-8 and
/// preserves the bytes.
#[verifier::external_body]
pub(crate) fn bytes_to_string(b: &Vec<u8>) -> (r: Option<String>)
    ensures
        r is Some <==> vstd::utf8::valid_utf8(b@),
        match r {
            Some(s) => vstd::utf8::encode_utf8(s@) == b@,
            None => true,
        },
{
    String::from_utf8(b.clone()).ok()
}

/// Relies on `std::path::Path::exists`: whether the path names an entity on
/// disk right now.  The answer depends on the state of the disk, so nothing
/// is promised of it.
#[verifier::external_body]
pub(crate) fn path_exists(p: &str) -> bool {
    std::path::Path::new(p).exists()
}

} // verus!
