use crate::ids::Pubkey;
use crate::state::VoucherData;
use vstd::bytes::{spec_u64_to_le_bytes, u64_to_le_bytes};
use vstd::prelude::*;

verus! {

/// The unsigned image of a signed 64-bit value under two's complement:
/// the value itself when non-negative, the value plus 2^64 otherwise.
pub open spec fn spec_i64_as_u64(x: i64) -> u64 {
    if x >= 0 {
        x as u64
    } else {
        (x + 0x1_0000_0000_0000_0000) as u64
    }
}

/// Little-endian bytes of a signed 64-bit value, two's complement.
pub open spec fn spec_i64_to_le_bytes(x: i64) -> Seq<u8> {
    spec_u64_to_le_bytes(spec_i64_as_u64(x))
}

/// The canonical byte string the issuer signs: buyer identity, sale
/// identity, maximum allocation (u64 LE), nonce (u64 LE) and expiry
/// timestamp (i64 LE), concatenated in exactly that order. Field
/// order, widths and endianness are a fixed wire contract with the
/// issuer: any deviation breaks signature verification.
pub open spec fn spec_voucher_message(v: VoucherData) -> Seq<u8> {
    v.buyer@ + v.sale@ + spec_u64_to_le_bytes(v.max_allocation) + spec_u64_to_le_bytes(v.nonce)
        + spec_i64_to_le_bytes(v.expiry_ts)
}

/// Appends a 32-byte identity to a message, unmodified.
fn push_bytes32(out: &mut Vec<u8>, b: &Pubkey)
    ensures
        final(out)@ == old(out)@ + b@,
{
    let mut i: usize = 0;
    while i < 32
        invariant
            0 <= i <= 32,
            out@ == old(out)@ + b@.subrange(0, i as int),
        decreases 32 - i,
    {
        out.push(b[i]);
        proof {
            assert(out@ =~= old(out)@ + b@.subrange(0, i + 1));
        }
        i = i + 1;
    }
    proof {
        assert(b@.subrange(0, 32) =~= b@);
    }
}

/// Appends the eight little-endian bytes of an unsigned 64-bit value.
fn push_u64_le(out: &mut Vec<u8>, x: u64)
    ensures
        final(out)@ == old(out)@ + spec_u64_to_le_bytes(x),
{
    let mut bytes = u64_to_le_bytes(x);
    out.append(&mut bytes);
}

/// The two's-complement unsigned reading of a signed 64-bit value.
fn i64_as_u64(x: i64) -> (r: u64)
    ensures
        r == spec_i64_as_u64(x),
{
    if x >= 0 {
        x as u64
    } else {
        let negated: i64 = -(x + 1);
        u64::MAX - (negated as u64)
    }
}

/// Appends the eight little-endian bytes of a signed 64-bit value.
fn push_i64_le(out: &mut Vec<u8>, x: i64)
    ensures
        final(out)@ == old(out)@ + spec_i64_to_le_bytes(x),
{
    let unsigned = i64_as_u64(x);
    push_u64_le(out, unsigned);
}

/// Builds the canonical signed message for a voucher, 88 bytes long.
///
/// The host hands these bytes, the presented signature and the
/// configured issuer key to its signature-verification primitive; the
/// resulting verdict is an input to the purchase transition.
pub fn voucher_message(v: &VoucherData) -> (msg: Vec<u8>)
    ensures
        msg@ == spec_voucher_message(*v),
        msg@.len() == 88,
{
    let mut msg: Vec<u8> = Vec::new();
    push_bytes32(&mut msg, &v.buyer);
    push_bytes32(&mut msg, &v.sale);
    push_u64_le(&mut msg, v.max_allocation);
    push_u64_le(&mut msg, v.nonce);
    push_i64_le(&mut msg, v.expiry_ts);
    proof {
        vstd::bytes::lemma_auto_spec_u64_to_from_le_bytes();
        assert(msg@ =~= spec_voucher_message(*v));
    }
    msg
}

} // verus!
