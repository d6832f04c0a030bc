//! Checksums of downloaded files.
use sha2::{Digest, Sha256};
use vstd::prelude::*;
use vstd::string::*;

use crate::error::Error;

verus! {

/// The SHA-256 digest of `data`.
pub uninterp spec fn sha256_digest(data: Seq<u8>) -> Seq<u8>;

/// `sha2`'s `Sha256::digest` hashes a run of bytes. The contract names the digest,
/// which is determined by the bytes, and gives its length.
#[verifier::external_body]
fn sha256(data: &[u8]) -> (digest: Vec<u8>)
    ensures
        digest@ == sha256_digest(data@),
        digest@.len() == 32,
{
    Sha256::digest(data).to_vec()
}

/// The lower-case hexadecimal digit of `n`.
pub open spec fn hex_digit(n: int) -> char {
    if n < 10 {
        (48 + n) as char
    } else {
        (87 + n) as char
    }
}

/// `bytes` in hexadecimal notation: two digits a byte, the high one first.
pub open spec fn hex_text(bytes: Seq<u8>) -> Seq<char> {
    Seq::new(
        2 * bytes.len(),
        |i: int|
            if i % 2 == 0 {
                hex_digit(bytes[i / 2] as int / 16)
            } else {
                hex_digit(bytes[i / 2] as int % 16)
            },
    )
}

/// `hex::encode` writes bytes in hexadecimal notation with lower-case digits, two
/// digits a byte.
#[verifier::external_body]
fn hex_encode(bytes: &[u8]) -> (text: String)
    ensures
        text@ == hex_text(bytes@),
{
    hex::encode(bytes)
}

/// The SHA-256 of `data` as rclone publishes it: in lower-case hexadecimal.
pub open spec fn sha256_text(data: Seq<u8>) -> Seq<char> {
    hex_text(sha256_digest(data))
}

/// The SHA-256 of a file's contents, in lower-case hexadecimal.
pub fn sha256_of(data: &[u8]) -> (text: String)
    ensures
        text@ == sha256_text(data@),
        text@ == hex_text(sha256_digest(data@)),
        text@.len() == 64,
{
    let digest = sha256(data);
    hex_encode(digest.as_slice())
}

/// What comparing checksums amounts to: no objection where none is pinned or where
/// the two are the same text.
pub open spec fn checksum_verdict(pinned: Seq<char>, actual: Seq<char>) -> Result<
    (),
    crate::error::ErrorView,
> {
    if pinned.len() == 0 || pinned == actual {
        Ok(())
    } else {
        Err(crate::error::ErrorView::ChecksumMismatch { expected: pinned, actual })
    }
}

/// Compares the checksum of a file with the pinned one.
pub fn compare_checksum(pinned: &String, actual: String) -> (verdict: Result<(), Error>)
    ensures
        verdict is Ok <==> checksum_verdict(pinned@, actual@) is Ok,
        verdict matches Err(e) ==> checksum_verdict(pinned@, actual@) == Err::<(), _>(e@),
        verdict is Ok <==> pinned@.len() == 0 || pinned@ == actual@,
        verdict matches Err(e) ==> (e matches Error::ChecksumMismatch { expected, actual: got }
            && expected@ == pinned@ && got@ == actual@),
{
    if pinned.as_str().is_empty() || *pinned == actual {
        Ok(())
    } else {
        Err(Error::ChecksumMismatch { expected: pinned.clone(), actual })
    }
}

/// A checksum passes where none is pinned or where it is the pinned one, letter by letter;
/// any other is refused with both.
pub proof fn only_the_pinned_checksum_passes(pinned: Seq<char>, actual: Seq<char>)
    ensures
        checksum_verdict(pinned, actual) is Ok <==> pinned.len() == 0 || pinned == actual,
        checksum_verdict(pinned, actual) matches Err(e) ==> e
            == (crate::error::ErrorView::ChecksumMismatch { expected: pinned, actual }),
{
}

/// Hexadecimal notation can be read back: two lower-case digits a byte, the high one first.
pub proof fn hexadecimal_is_read_back(bytes: Seq<u8>, i: int)
    requires
        0 <= i < bytes.len(),
    ensures
        hex_text(bytes).len() == 2 * bytes.len(),
        ({
            let high = hex_text(bytes)[2 * i];
            let low = hex_text(bytes)[2 * i + 1];
            let h = if '0' <= high <= '9' {
                high as int - 48
            } else {
                high as int - 87
            };
            let l = if '0' <= low <= '9' {
                low as int - 48
            } else {
                low as int - 87
            };
            &&& '0' <= high <= '9' || 'a' <= high <= 'f'
            &&& '0' <= low <= '9' || 'a' <= low <= 'f'
            &&& bytes[i] == 16 * h + l
        }),
        sha256_text(bytes) == hex_text(sha256_digest(bytes)),
{
    assert((2 * i) / 2 == i && (2 * i) % 2 == 0);
    assert((2 * i + 1) / 2 == i && (2 * i + 1) % 2 == 1);
}

} // verus!
