//! Signing keys: parsing hex key text and binding it to a chain.

use crate::error::Error;
use crate::text::has_prefix;
use ethers::signers::LocalWallet;
use vstd::prelude::*;
use vstd::string::StringExecFns;

verus! {

/// Whether 32 big-endian bytes encode a secret scalar of secp256k1 (a value
/// in `1 .. n`, `n` the group order), as the signing library decides it.
pub uninterp spec fn is_secp256k1_secret(key: Seq<u8>) -> bool;

/// Relies on `Wallet::<SigningKey>::from_bytes` (`LocalWallet`): it builds a
/// wallet from 32 big-endian bytes and fails exactly when they are no secret
/// scalar. It panics on any other length, which `requires` rules out.
#[verifier::external_body]
fn wallet_accepts_secret(secret: &[u8]) -> (r: bool)
    requires
        secret@.len() == 32,
    ensures
        r == is_secp256k1_secret(secret@),
{
    LocalWallet::from_bytes(secret).is_ok()
}

/// A signing key bound to the chain that its transactions are for: the
/// 32-byte secret that the signing library accepted, and the chain id that
/// signatures must carry.
pub struct SigningIdentity {
    pub secret: Vec<u8>,
    pub chain_id: u64,
}

/// The value of a hexadecimal digit, or `None` for any other character.
pub open spec fn hex_digit_value(c: char) -> Option<u8> {
    if '0' <= c && c <= '9' {
        Some((c as u32 - '0' as u32) as u8)
    } else if 'a' <= c && c <= 'f' {
        Some((c as u32 - 'a' as u32 + 10) as u8)
    } else if 'A' <= c && c <= 'F' {
        Some((c as u32 - 'A' as u32 + 10) as u8)
    } else {
        None
    }
}

/// The key text without its optional `0x` prefix.
pub open spec fn key_digits(s: Seq<char>) -> Seq<char> {
    if has_prefix(s, "0x"@) {
        s.subrange(2, s.len() as int)
    } else {
        s
    }
}

/// `s` is 64 hexadecimal digits, after an optional `0x`.
pub open spec fn is_key_text(s: Seq<char>) -> bool {
    let d = key_digits(s);
    d.len() == 64 && forall|i: int| 0 <= i < 64 ==> (#[trigger] hex_digit_value(d[i])) is Some
}

/// The 32 bytes that well-formed key text spells, two digits per byte,
/// high digit first.
pub open spec fn key_bytes(s: Seq<char>) -> Seq<u8> {
    let d = key_digits(s);
    Seq::new(
        32,
        |i: int| (hex_digit_value(d[2 * i])->0 * 16 + hex_digit_value(d[2 * i + 1])->0) as u8,
    )
}

fn hex_digit(c: char) -> (r: Option<u8>)
    ensures
        r == hex_digit_value(c),
{
    if '0' <= c && c <= '9' {
        Some((c as u32 - '0' as u32) as u8)
    } else if 'a' <= c && c <= 'f' {
        Some((c as u32 - 'a' as u32 + 10) as u8)
    } else if 'A' <= c && c <= 'F' {
        Some((c as u32 - 'A' as u32 + 10) as u8)
    } else {
        None
    }
}

/// Strips an optional `0x` and decodes the 64 hexadecimal digits that must
/// follow into 32 bytes. Wrong length or a non-hex character is an
/// invalid-key error.
pub fn decode_private_key(private_key: &str) -> (r: Result<Vec<u8>, Error>)
    ensures
        is_key_text(private_key@) ==> r is Ok && r->Ok_0@ == key_bytes(private_key@),
        !is_key_text(private_key@) ==> r matches Err(Error::InvalidPrivateKey(_)),
{
    proof {
        reveal_strlit("0x");
    }
    let n = private_key.unicode_len();
    let start: usize = if n >= 2 && private_key.get_char(0) == '0' && private_key.get_char(1) == 'x' {
        2
    } else {
        0
    };
    assert(start == 2 <==> has_prefix(private_key@, "0x"@)) by {
        if n >= 2 {
            assert(private_key@.subrange(0, 2) =~= seq![private_key@[0], private_key@[1]]);
            assert("0x"@ =~= seq!['0', 'x']);
        }
    }
    let ghost d = key_digits(private_key@);
    assert(d =~= private_key@.subrange(start as int, n as int));
    if n - start != 64 {
        return Err(
            Error::InvalidPrivateKey(String::from_str("Private key must be 64 hex characters.")),
        );
    }
    let mut out: Vec<u8> = Vec::new();
    let mut i: usize = 0;
    while i < 32
        invariant
            n == private_key@.len(),
            d == key_digits(private_key@),
            d =~= private_key@.subrange(start as int, n as int),
            d.len() == 64,
            start + 64 == n,
            i <= 32,
            out@.len() == i,
            forall|j: int| 0 <= j < 2 * i ==> (#[trigger] hex_digit_value(d[j])) is Some,
            forall|j: int|
                0 <= j < i ==> out@[j] == (hex_digit_value(d[2 * j])->0 * 16 + hex_digit_value(
                    d[2 * j + 1],
                )->0) as u8,
        decreases 32 - i,
    {
        let hi = hex_digit(private_key.get_char(start + 2 * i));
        let lo = hex_digit(private_key.get_char(start + 2 * i + 1));
        assert(d[2 * i as int] == private_key@[start + 2 * i]);
        assert(d[2 * i + 1] == private_key@[start + 2 * i + 1]);
        match (hi, lo) {
            (Some(h), Some(l)) => {
                assert(h < 16 && l < 16);
                out.push(h * 16 + l);
            },
            _ => {
                return Err(
                    Error::InvalidPrivateKey(
                        String::from_str("Private key must be hexadecimal."),
                    ),
                );
            },
        }
        i = i + 1;
    }
    assert(out@ =~= key_bytes(private_key@));
    Ok(out)
}

/// Derives the signing identity for `chain_id` from hex key text. The key is
/// checked and decoded here; the signing library then decides whether the
/// bytes are a valid secret. No network is involved.
pub fn create_wallet(private_key: &str, chain_id: u64) -> (r: Result<SigningIdentity, Error>)
    ensures
        !is_key_text(private_key@) ==> r matches Err(Error::InvalidPrivateKey(_)),
        r is Ok <==> is_key_text(private_key@) && is_secp256k1_secret(key_bytes(private_key@)),
        r is Ok ==> r->Ok_0.chain_id == chain_id && r->Ok_0.secret@ == key_bytes(private_key@),
        r is Err ==> r matches Err(Error::InvalidPrivateKey(_)),
{
    let secret = decode_private_key(private_key)?;
    if wallet_accepts_secret(secret.as_slice()) {
        Ok(SigningIdentity { secret, chain_id })
    } else {
        Err(
            Error::InvalidPrivateKey(
                String::from_str("Private key is not a valid secp256k1 secret."),
            ),
        )
    }
}

} // verus!
