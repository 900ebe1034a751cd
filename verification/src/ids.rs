//! The identifier deriver: a poll id is the first eight bytes, read
//! little-endian, of the SHA-256 digest of `"<time>:<authority>"`, where both
//! numbers are written in decimal.

use vstd::prelude::*;

verus! {

/// The decimal digits of `n`, most significant first, as ASCII bytes.
pub open spec fn dec_digits(n: nat) -> Seq<u8>
    decreases n,
{
    if n < 10 {
        seq![(48 + n) as u8]
    } else {
        dec_digits(n / 10).push((48 + n % 10) as u8)
    }
}

/// The bytes that are hashed to derive a poll id: the creation time in
/// decimal, an ASCII colon, the creator's identity in decimal.
pub open spec fn poll_id_preimage(current_time: u64, authority: u64) -> Seq<u8> {
    dec_digits(current_time as nat) + seq![58u8] + dec_digits(authority as nat)
}

/// The SHA-256 digest of a byte sequence. The digest has no short
/// mathematical statement; this name stands for it, and the trusted wrapper
/// below ties it to the outside implementation.
pub uninterp spec fn sha256_of(bytes: Seq<u8>) -> Seq<u8>;

/// The unsigned 64-bit value held little-endian in the first eight bytes.
pub open spec fn le_u64_of(s: Seq<u8>) -> nat {
    (s[0] + s[1] * 0x100 + s[2] * 0x1_0000 + s[3] * 0x100_0000 + s[4] * 0x1_0000_0000
        + s[5] * 0x100_0000_0000 + s[6] * 0x1_0000_0000_0000
        + s[7] * 0x100_0000_0000_0000) as nat
}

/// The poll id that a given creation time and creator identity derive.
pub open spec fn derived_poll_id(current_time: u64, authority: u64) -> u64 {
    le_u64_of(sha256_of(poll_id_preimage(current_time, authority))) as u64
}

/// Relies on `anchor_lang::solana_program::hash::hash`, the SHA-256 digest of
/// the input bytes: thirty-two bytes that depend on the input alone.
#[verifier::external_body]
fn sha256(bytes: &Vec<u8>) -> (r: Vec<u8>)
    ensures
        r@ == sha256_of(bytes@),
        r@.len() == 32,
{
    anchor_lang::solana_program::hash::hash(bytes.as_slice()).to_bytes().to_vec()
}

/// Writes `n` in decimal, most significant digit first.
pub fn u64_to_decimal(n: u64) -> (r: Vec<u8>)
    ensures
        r@ == dec_digits(n as nat),
{
    let mut digits: Vec<u8> = Vec::new();
    let mut m: u64 = n;
    proof {
        assert(dec_digits(n as nat) =~= dec_digits(m as nat) + digits@);
    }
    loop
        invariant_except_break
            dec_digits(n as nat) == dec_digits(m as nat) + digits@,
        ensures
            dec_digits(n as nat) == digits@,
        decreases m,
    {
        let d: u8 = (m % 10) as u8 + 48;
        let ghost old_digits = digits@;
        digits.insert(0, d);
        proof {
            assert(digits@ =~= seq![d] + old_digits);
        }
        if m < 10 {
            proof {
                assert(dec_digits(m as nat) =~= seq![d]);
                assert(dec_digits(n as nat) =~= digits@);
            }
            break;
        }
        proof {
            assert(dec_digits(m as nat) == dec_digits(m as nat / 10).push(d));
            assert(dec_digits(m as nat / 10).push(d) + old_digits =~= dec_digits(
                m as nat / 10,
            ) + digits@);
        }
        m = m / 10;
    }
    digits
}

/// Reads the unsigned 64-bit value held little-endian in the first eight
/// bytes.
pub fn le_u64_from(bytes: &Vec<u8>) -> (r: u64)
    requires
        bytes@.len() >= 8,
    ensures
        r == le_u64_of(bytes@),
{
    let b0 = bytes[0] as u64;
    let b1 = bytes[1] as u64;
    let b2 = bytes[2] as u64;
    let b3 = bytes[3] as u64;
    let b4 = bytes[4] as u64;
    let b5 = bytes[5] as u64;
    let b6 = bytes[6] as u64;
    let b7 = bytes[7] as u64;
    b0 + b1 * 0x100 + b2 * 0x1_0000 + b3 * 0x100_0000 + b4 * 0x1_0000_0000 + b5 * 0x100_0000_0000
        + b6 * 0x1_0000_0000_0000 + b7 * 0x100_0000_0000_0000
}

/// Derives the poll id for a creation time and a creator identity. The
/// derivation is deterministic: the same pair always yields the same id.
pub fn derive_poll_id(current_time: u64, authority: u64) -> (r: u64)
    ensures
        r == derived_poll_id(current_time, authority),
{
    let mut preimage = u64_to_decimal(current_time);
    preimage.push(58);  // the ASCII colon
    let mut auth = u64_to_decimal(authority);
    preimage.append(&mut auth);
    proof {
        assert(preimage@ =~= poll_id_preimage(current_time, authority));
    }
    let digest = sha256(&preimage);
    le_u64_from(&digest)
}

} // verus!
