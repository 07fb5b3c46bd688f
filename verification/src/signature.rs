//! The request signature that the payment provider checks.
//!
//! A signature token is the lower-case hex SHA-256 of the signed parts laid end
//! to end, followed by `###` and the index of the merchant key that was used.

use sha2::Digest;
use vstd::prelude::*;
use vstd::string::StringExecFns;

verus! {

/// The SHA-256 digest of a byte string.
pub uninterp spec fn sha256(data: Seq<u8>) -> Seq<u8>;

/// The lower-case hex digit of a value below sixteen.
pub open spec fn hex_digit(nibble: u8) -> char {
    if nibble < 10 {
        (48 + nibble) as char
    } else {
        (87 + nibble) as char
    }
}

/// Two lower-case hex digits per byte, the high half first.
pub open spec fn hex_lower(data: Seq<u8>) -> Seq<char> {
    Seq::new(
        2 * data.len(),
        |i: int|
            if i % 2 == 0 {
                hex_digit(data[i / 2] / 16)
            } else {
                hex_digit(data[i / 2] % 16)
            },
    )
}

/// The UTF-8 bytes of the parts, laid end to end in order.
pub open spec fn joined_bytes(parts: Seq<Seq<char>>) -> Seq<u8>
    decreases parts.len(),
{
    if parts.len() == 0 {
        Seq::empty()
    } else {
        joined_bytes(parts.drop_last()) + vstd::utf8::encode_utf8(parts.last())
    }
}

/// The token made from an already computed digest.
pub open spec fn token_of_digest(digest: Seq<u8>, index: Seq<char>) -> Seq<char> {
    hex_lower(digest) + "###"@ + index
}

/// The signature token over `parts`, made with the key of the given index.
pub open spec fn xverify(parts: Seq<Seq<char>>, index: Seq<char>) -> Seq<char> {
    token_of_digest(sha256(joined_bytes(parts)), index)
}

/// The character sequences of a list of string slices.
pub open spec fn texts(parts: Seq<&str>) -> Seq<Seq<char>> {
    Seq::new(parts.len(), |i: int| parts[i]@)
}

/// Calls `Sha256::digest` of the `sha2` crate on `data`.
///
/// Trusted: the result is the SHA-256 digest of `data`, which is 32 bytes long.
#[verifier::external_body]
fn sha256_digest(data: &[u8]) -> (digest: Vec<u8>)
    ensures
        digest@ == sha256(data@),
        digest@.len() == 32,
{
    sha2::Sha256::digest(data).to_vec()
}

/// Calls `hex::encode` on `data`.
///
/// Trusted: the result holds two characters per byte of `data`, in order: the
/// lower-case hex digit of the byte's high four bits, then that of its low four
/// bits.
#[verifier::external_body]
fn hex_encode(data: &[u8]) -> (text: String)
    ensures
        text@ == hex_lower(data@),
{
    hex::encode(data)
}

/// Builds the signature token from a digest that was computed before.
pub fn token_from_digest(digest: &[u8], index: &str) -> (token: String)
    ensures
        token@ == token_of_digest(digest@, index@),
{
    let mut token = hex_encode(digest);
    token.append("###");
    token.append(index);
    token
}

/// Signs `parts` for the provider: hashes their bytes, laid end to end, with
/// SHA-256 and appends `###` and the key index to the hex digest.
pub fn calc_xverify(parts: &[&str], index: &str) -> (token: String)
    ensures
        token@ == xverify(texts(parts@), index@),
{
    let mut buffer: Vec<u8> = Vec::new();
    let mut i: usize = 0;
    while i < parts.len()
        invariant
            i <= parts@.len(),
            buffer@ == joined_bytes(texts(parts@).take(i as int)),
        decreases parts@.len() - i,
    {
        buffer.extend_from_slice(parts[i].as_bytes());
        proof {
            let all = texts(parts@);
            assert(all.take(i + 1).drop_last() =~= all.take(i as int));
            assert(all.take(i + 1).last() == parts@[i as int]@);
        }
        i = i + 1;
    }
    assert(texts(parts@).take(i as int) =~= texts(parts@));
    let digest = sha256_digest(buffer.as_slice());
    token_from_digest(digest.as_slice(), index)
}

} // verus!
