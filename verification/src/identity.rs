//! The machine's identity: its hostname, the shared authentication key and
//! the key's digest that the handshake compares.

use vstd::prelude::*;
use sha2::Digest;
use rand::Rng;

verus! {

/// The SHA-256 digest of `data`.
pub uninterp spec fn sha256_digest(data: Seq<u8>) -> Seq<u8>;

/// Computes SHA-256 with the `sha2` crate (`Sha256::new`, `update`,
/// `finalize`). Claimed: the result is the digest of `data` and, as the
/// algorithm's output size, 32 bytes long.
#[verifier::external_body]
pub(crate) fn sha256(data: &[u8]) -> (r: Vec<u8>)
    ensures
        r@ == sha256_digest(data@),
        r@.len() == 32,
{
    let mut hasher = sha2::Sha256::new();
    hasher.update(data);
    hasher.finalize().to_vec()
}

/// The lowercase hexadecimal digit for `n` in `0..16`.
pub open spec fn hex_digit(n: int) -> char {
    seq!['0', '1', '2', '3', '4', '5', '6', '7', '8', '9', 'a', 'b', 'c', 'd', 'e', 'f'][n]
}

/// The lowercase hexadecimal spelling of `b`: two digits per byte, the high
/// half first.
pub open spec fn hex_lower(b: Seq<u8>) -> Seq<char> {
    Seq::new(
        2 * b.len(),
        |i: int|
            if i % 2 == 0 {
                hex_digit(b[i / 2] as int / 16)
            } else {
                hex_digit(b[i / 2] as int % 16)
            },
    )
}

/// Spells bytes in hexadecimal with `hex::encode`. Claimed, as the crate's
/// source shows (`HEX_CHARS_LOWER`, high nibble first): the lowercase
/// two-digits-per-byte spelling of `data`.
#[verifier::external_body]
pub(crate) fn hex_encode(data: &[u8]) -> (r: String)
    ensures
        r@ == hex_lower(data@),
{
    hex::encode(data)
}

/// One byte from `rand::thread_rng().gen::<u8>()`. Nothing is claimed of
/// its value: it is random.
#[verifier::external_body]
pub(crate) fn random_byte() -> u8 {
    rand::thread_rng().gen::<u8>()
}

/// The system's hostname from `hostname::get`, lossily converted to UTF-8,
/// or `None` where the call fails. Nothing is claimed of the name: it comes
/// from the machine.
#[verifier::external_body]
pub(crate) fn system_hostname() -> Option<String> {
    match hostname::get() {
        Ok(h) => Some(h.to_string_lossy().to_string()),
        Err(_) => None,
    }
}

/// Whether `key` is the hexadecimal spelling of 32 bytes.
pub open spec fn is_auth_key(key: Seq<char>) -> bool {
    exists|b: Seq<u8>| b.len() == 32 && key == #[trigger] hex_lower(b)
}

/// A fresh authentication key: 32 random bytes in lowercase hexadecimal.
pub fn generate_auth_key() -> (r: String)
    ensures
        is_auth_key(r@),
        r@.len() == 64,
{
    let mut bytes: Vec<u8> = Vec::new();
    let mut i: usize = 0;
    while i < 32
        invariant
            bytes@.len() == i,
            i <= 32,
        decreases 32 - i,
    {
        bytes.push(random_byte());
        i += 1;
    }
    let r = hex_encode(bytes.as_slice());
    assert(bytes@.len() == 32 && r@ == hex_lower(bytes@));
    r
}

/// The hostname to announce given what the system reported: its name, or
/// `unknown` where it reported none.
pub fn hostname_or_unknown(found: Option<String>) -> (r: String)
    ensures
        match found {
            Some(h) => r@ == h@,
            None => r@ == "unknown"@,
        },
{
    match found {
        Some(h) => h,
        None => crate::text::owned("unknown"),
    }
}

/// The hostname this machine announces: the system's, or `unknown` where it
/// cannot be read. What the system reports is not known here, so nothing is
/// claimed of the result beyond `hostname_or_unknown` of it.
pub(crate) fn local_hostname() -> String {
    hostname_or_unknown(system_hostname())
}

} // verus!
