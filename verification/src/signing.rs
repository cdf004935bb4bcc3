//! Request signatures: the hex SHA-256 of the private key followed by the
//! query string.

use vstd::prelude::*;
use vstd::utf8::encode_utf8;

use crate::json::hex_lower;
use sha2::Digest;

verus! {

/// The SHA-256 digest of a byte string.
pub uninterp spec fn spec_sha256(data: Seq<u8>) -> Seq<u8>;

/// `sha2::Sha256` over `data`.
///
/// The contract names the digest, a function of the input alone, and states
/// that it is 32 bytes long, as `Sha256`'s `OutputSize` (U32) fixes it.
#[verifier::external_body]
fn sha256_digest(data: &[u8]) -> (r: Vec<u8>)
    ensures
        r@ == spec_sha256(data@),
        r@.len() == 32,
{
    let mut hasher = sha2::Sha256::new();
    hasher.update(data);
    hasher.finalize().to_vec()
}

/// Lower-case hexadecimal, two digits per byte, high nibble first.
pub open spec fn spec_hex(bs: Seq<u8>) -> Seq<char>
    decreases bs.len(),
{
    if bs.len() == 0 {
        Seq::empty()
    } else {
        spec_hex(bs.drop_last()) + seq![
            hex_lower((bs.last() / 16) as nat),
            hex_lower((bs.last() % 16) as nat),
        ]
    }
}

/// `hex::encode`: as its documentation says, each byte as two lower-case
/// hexadecimal characters, high nibble first.
#[verifier::external_body]
fn hex_encode(data: &[u8]) -> (r: String)
    ensures
        r@ == spec_hex(data@),
{
    hex::encode(data)
}

/// The signature of a query under a private key.
pub open spec fn spec_sign(key: Seq<char>, query: Seq<char>) -> Seq<char> {
    spec_hex(spec_sha256(encode_utf8(key) + encode_utf8(query)))
}

/// A lower-case hexadecimal digit.
pub open spec fn is_hex_lower(c: char) -> bool {
    ('0' <= c && c <= '9') || ('a' <= c && c <= 'f')
}

/// Hex text is two lower-case hex digits per byte.
pub proof fn lemma_hex_shape(bs: Seq<u8>)
    ensures
        spec_hex(bs).len() == 2 * bs.len(),
        forall|i: int| 0 <= i < spec_hex(bs).len() ==> is_hex_lower(#[trigger] spec_hex(bs)[i]),
    decreases bs.len(),
{
    if bs.len() > 0 {
        lemma_hex_shape(bs.drop_last());
        let a = spec_hex(bs.drop_last());
        let h = bs.last() / 16;
        let l = bs.last() % 16;
        assert(is_hex_lower(hex_lower(h as nat)));
        assert(is_hex_lower(hex_lower(l as nat)));
        assert forall|i: int| 0 <= i < spec_hex(bs).len() implies is_hex_lower(
            #[trigger] spec_hex(bs)[i],
        ) by {
            if i < a.len() {
                assert(spec_hex(bs)[i] == a[i]);
            }
        }
    }
}

/// Signs `query` with `key`: the hex SHA-256 of the key's bytes followed by
/// the query's bytes. The result is always 64 lower-case hex digits.
pub fn sign(key: &str, query: &str) -> (r: String)
    ensures
        r@ == spec_sign(key@, query@),
        r@.len() == 64,
        forall|i: int| 0 <= i < r@.len() ==> is_hex_lower(#[trigger] r@[i]),
{
    let mut data = key.as_bytes_vec();
    let mut rest = query.as_bytes_vec();
    data.append(&mut rest);
    let digest = sha256_digest(data.as_slice());
    proof {
        lemma_hex_shape(digest@);
    }
    hex_encode(digest.as_slice())
}

} // verus!
