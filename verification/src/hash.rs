//! Digests of uploaded data, as lowercase hexadecimal strings.
//!
//! The digest algorithms are those of the `rust-crypto` crate; this module
//! decides when a digest is computed and what is returned otherwise.

use crypto::digest::Digest;
use crypto::md5::Md5;
use crypto::sha1::Sha1;
use vstd::prelude::*;

verus! {

/// What `Digest::result_str` of an MD5 hasher that was fed `data` returns.
pub uninterp spec fn md5_hex(data: Seq<u8>) -> Seq<char>;

/// What `Digest::result_str` of a SHA-1 hasher that was fed `data` returns.
pub uninterp spec fn sha1_hex(data: Seq<u8>) -> Seq<char>;

/// A lowercase hexadecimal digit.
pub open spec fn is_lower_hex_digit(c: char) -> bool {
    ('0' <= c && c <= '9') || ('a' <= c && c <= 'f')
}

/// A string of lowercase hexadecimal digits.
pub open spec fn is_lower_hex(s: Seq<char>) -> bool {
    forall|i: int| 0 <= i < s.len() ==> #[trigger] is_lower_hex_digit(s[i])
}

/// The MD5 digest of `data` with `rust-crypto`: a fresh `Md5` hasher is fed
/// `data` with `Digest::input`, and `Digest::result_str` writes its 16-byte
/// result with two lowercase hexadecimal digits per byte (the `to_hex` of
/// `rustc-serialize`). The byte count kept in a `u64` cannot overflow from
/// a single slice.
#[verifier::external_body]
fn md5_hex_of(data: &[u8]) -> (r: String)
    ensures
        r@ == md5_hex(data@),
        r@.len() == 32,
        is_lower_hex(r@),
{
    let mut digest = Md5::new();
    digest.input(data);
    digest.result_str()
}

/// The SHA-1 digest of `data` with `rust-crypto`: a fresh `Sha1` hasher is
/// fed `data` with `Digest::input`, and `Digest::result_str` writes its
/// 20-byte result with two lowercase hexadecimal digits per byte. Feeding
/// panics when the count of bits does not fit in a `u64`.
#[verifier::external_body]
fn sha1_hex_of(data: &[u8]) -> (r: String)
    requires
        data@.len() * 8 <= u64::MAX,
    ensures
        r@ == sha1_hex(data@),
        r@.len() == 40,
        is_lower_hex(r@),
{
    let mut digest = Sha1::new();
    digest.input(data);
    digest.result_str()
}

/// The checksum string that the upload check computes for `data`: empty for
/// empty data, the hexadecimal digest otherwise.
pub open spec fn digest_or_empty(data: Seq<u8>, hex: Seq<char>) -> Seq<char> {
    if data.len() == 0 {
        Seq::<char>::empty()
    } else {
        hex
    }
}

/// The MD5 sum of `data` in lowercase hexadecimal.
pub fn md5sum(data: &[u8]) -> (r: String)
    ensures
        r@ == md5_hex(data@),
        r@.len() == 32,
        is_lower_hex(r@),
{
    md5_hex_of(data)
}

/// The SHA-1 sum of `data` in lowercase hexadecimal; the empty string for
/// empty data.
pub fn sha1sum(data: &[u8]) -> (r: String)
    requires
        data@.len() * 8 <= u64::MAX,
    ensures
        r@ == digest_or_empty(data@, sha1_hex(data@)),
        data@.len() == 0 ==> r@ == Seq::<char>::empty(),
        data@.len() > 0 ==> r@ == sha1_hex(data@),
        data@.len() > 0 ==> r@.len() == 40 && is_lower_hex(r@),
{
    if data.len() > 0 {
        sha1_hex_of(data)
    } else {
        String::new()
    }
}

/// For data that is not empty, the checksum string is the digest of all of
/// the data, whatever digest is given; only empty data gives the empty string.
pub proof fn law_checksum_of_nonempty_data_is_its_digest(data: Seq<u8>, hex: Seq<char>)
    ensures
        data.len() > 0 ==> digest_or_empty(data, hex) == hex,
        data.len() == 0 ==> digest_or_empty(data, hex) == Seq::<char>::empty(),
{
}

} // verus!
