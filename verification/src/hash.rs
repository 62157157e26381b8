//! Streaming SHA-256 digests through the `sha2` crate.
//!
//! The digest value itself is named, not restated: `sha256_hex_of` stands for
//! the lowercase-hex rendering of the SHA-256 digest of a byte sequence, a
//! function of those bytes alone.

use vstd::prelude::*;

use sha2::Digest;

verus! {

/// The SHA-256 digest of `data`, rendered as lowercase hex. A function of
/// the bytes alone; its 32 result bytes render as 64 hex characters.
pub uninterp spec fn sha256_hex_of(data: Seq<u8>) -> Seq<char>;

/// Whether `c` is a lowercase hexadecimal digit.
pub open spec fn is_lower_hex_char(c: char) -> bool {
    ('0' <= c && c <= '9') || ('a' <= c && c <= 'f')
}

/// A streaming SHA-256 accumulator. It wraps `sha2::Sha256`, whose deeply
/// generic type Verus cannot represent, so the struct is opaque and its
/// abstract state — the bytes fed so far — is given by `fed`.
#[verifier::external_body]
pub struct Sha256Stream {
    inner: sha2::Sha256,
}

/// The bytes fed into the accumulator so far.
pub uninterp spec fn fed(h: Sha256Stream) -> Seq<u8>;

impl Sha256Stream {
    /// Relies on `sha2::Sha256::new` (`Digest::new`): a fresh accumulator
    /// over no bytes.
    #[verifier::external_body]
    pub fn new() -> (h: Sha256Stream)
        ensures
            fed(h) == Seq::<u8>::empty(),
    {
        Sha256Stream { inner: sha2::Sha256::new() }
    }

    /// Relies on `Digest::update`: absorbs `chunk` after whatever was fed
    /// before.
    #[verifier::external_body]
    pub fn update(&mut self, chunk: &[u8])
        ensures
            fed(*final(self)) == fed(*old(self)) + chunk@,
    {
        self.inner.update(chunk);
    }

    /// Relies on `Digest::finalize` and on `generic_array`'s lowercase-hex
    /// rendering: the 32 digest bytes come out as 64 lowercase hex
    /// characters, a function of the fed bytes alone.
    #[verifier::external_body]
    pub fn finalize_hex(self) -> (r: String)
        ensures
            r@ == sha256_hex_of(fed(self)),
            r@.len() == 64,
            forall|i: int| 0 <= i < r@.len() ==> is_lower_hex_char(r@[i]),
    {
        format!("{:x}", self.inner.finalize())
    }
}

/// The SHA-256 lowercase-hex digest of `data` in one call.
pub fn sha256_hex(data: &[u8]) -> (r: String)
    ensures
        r@ == sha256_hex_of(data@),
        r@.len() == 64,
{
    let mut h = Sha256Stream::new();
    h.update(data);
    proof {
        assert(fed(h) =~= data@);
    }
    h.finalize_hex()
}

} // verus!
