//! The stored encoding of a granted value: eight bytes, most significant
//! first. Bytes of any other length are no record of a value.

use vstd::prelude::*;
use vstd::arithmetic::div_mod::lemma_breakdown;
use vstd::arithmetic::div_mod::lemma_small_mod;

verus! {

/// The number of bytes of a stored record.
pub const RECORD_WIDTH: usize = 8;

/// 256 to the power of `exponent`.
pub open spec fn pow256(exponent: nat) -> nat
    decreases exponent,
{
    if exponent == 0 {
        1
    } else {
        256 * pow256((exponent - 1) as nat)
    }
}

/// The number that `bytes` spell in base 256, most significant byte first.
pub open spec fn be_value(bytes: Seq<u8>) -> nat
    decreases bytes.len(),
{
    if bytes.len() == 0 {
        0
    } else {
        be_value(bytes.drop_last()) * 256 + bytes.last() as nat
    }
}

/// The `width` least significant base-256 digits of `value`, most
/// significant first.
pub open spec fn be_bytes(value: nat, width: nat) -> Seq<u8>
    decreases width,
{
    if width == 0 {
        Seq::empty()
    } else {
        be_bytes(value / 256, (width - 1) as nat).push((value % 256) as u8)
    }
}

/// The value that a stored record holds, or `None` where the bytes are
/// malformed: a record is `RECORD_WIDTH` bytes long.
pub open spec fn stored_value(record: Seq<u8>) -> Option<nat> {
    if record.len() == RECORD_WIDTH {
        Some(be_value(record))
    } else {
        None
    }
}

/// The first powers of 256, up to the one that bounds a `u64`.
proof fn lemma_pow256_values()
    ensures
        pow256(0) == 1,
        pow256(1) == 0x100,
        pow256(2) == 0x1_0000,
        pow256(3) == 0x100_0000,
        pow256(4) == 0x1_0000_0000,
        pow256(5) == 0x100_0000_0000,
        pow256(6) == 0x1_0000_0000_0000,
        pow256(7) == 0x100_0000_0000_0000,
        pow256(8) == 0x1_0000_0000_0000_0000,
{
    reveal_with_fuel(pow256, 9);
}

/// Reading back the `width` digits written for `value` gives `value` modulo
/// 256 to the `width`.
pub proof fn lemma_value_of_bytes(value: nat, width: nat)
    ensures
        be_bytes(value, width).len() == width,
        be_value(be_bytes(value, width)) == value % pow256(width),
    decreases width,
{
    if width == 0 {
    } else {
        let rest = (width - 1) as nat;
        let head = be_bytes(value / 256, rest);
        lemma_value_of_bytes(value / 256, rest);
        assert(be_bytes(value, width).drop_last() =~= head);
        lemma_pow256_positive(rest);
        lemma_breakdown(value as int, 256, pow256(rest) as int);
    }
}

/// No power of 256 is zero.
proof fn lemma_pow256_positive(exponent: nat)
    ensures
        pow256(exponent) > 0,
    decreases exponent,
{
    if exponent > 0 {
        lemma_pow256_positive((exponent - 1) as nat);
    }
}

/// A record that was written for `value` holds `value`: decoding undoes
/// encoding.
pub proof fn lemma_roundtrip(value: u64)
    ensures
        be_bytes(value as nat, RECORD_WIDTH as nat).len() == RECORD_WIDTH,
        stored_value(be_bytes(value as nat, RECORD_WIDTH as nat)) == Some(value as nat),
{
    lemma_value_of_bytes(value as nat, RECORD_WIDTH as nat);
    lemma_pow256_values();
    lemma_small_mod(value as nat, pow256(8));
}

/// The records of two values differ: a record tells which value was granted.
pub proof fn lemma_records_differ(first: u64, second: u64)
    requires
        first != second,
    ensures
        be_bytes(first as nat, RECORD_WIDTH as nat) != be_bytes(second as nat, RECORD_WIDTH as nat),
{
    lemma_roundtrip(first);
    lemma_roundtrip(second);
}

/// Appends the `width` base-256 digits of `value` to `out`.
fn push_be(out: &mut Vec<u8>, value: u64, width: usize)
    ensures
        final(out)@ == old(out)@ + be_bytes(value as nat, width as nat),
    decreases width,
{
    if width > 0 {
        push_be(out, value / 256, width - 1);
        out.push((value % 256) as u8);
    }
}

/// Encodes `value` as a record of eight bytes, most significant first.
pub fn serialize_u64(value: u64) -> (record: Vec<u8>)
    ensures
        record@ == be_bytes(value as nat, RECORD_WIDTH as nat),
        record@.len() == RECORD_WIDTH,
        stored_value(record@) == Some(value as nat),
{
    let mut record: Vec<u8> = Vec::new();
    push_be(&mut record, value, RECORD_WIDTH);
    proof {
        lemma_roundtrip(value);
    }
    record
}

/// Decodes a stored record. Bytes that are not `RECORD_WIDTH` long are
/// malformed and decode to `None`.
pub fn deserialize_u64(value: Vec<u8>) -> (decoded: Option<u64>)
    ensures
        decoded is Some <==> value@.len() == RECORD_WIDTH,
        decoded matches Some(number) ==> stored_value(value@) == Some(number as nat),
        decoded is None ==> stored_value(value@) is None,
{
    if value.len() != RECORD_WIDTH {
        return None;
    }
    let mut number: u64 = 0;
    let mut i: usize = 0;
    while i < RECORD_WIDTH
        invariant
            i <= RECORD_WIDTH,
            value@.len() == RECORD_WIDTH,
            number == be_value(value@.take(i as int)),
            number < pow256(i as nat),
        decreases RECORD_WIDTH - i,
    {
        proof {
            lemma_pow256_values();
            assert(value@.take(i + 1).drop_last() =~= value@.take(i as int));
        }
        number = number * 256 + value[i] as u64;
        i = i + 1;
    }
    assert(value@.take(RECORD_WIDTH as int) =~= value@);
    Some(number)
}

} // verus!
