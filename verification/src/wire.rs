//! Little-endian integers and fixed-width fields, as the records and the
//! payloads lay them out.

use vstd::prelude::*;

verus! {

/// The number that `bytes` spell, least significant byte first.
pub open spec fn le_value(bytes: Seq<u8>) -> nat
    decreases bytes.len(),
{
    if bytes.len() == 0 {
        0
    } else {
        bytes[0] as nat + 256 * le_value(bytes.skip(1))
    }
}

/// The `width` bytes that spell `value`, least significant byte first.
pub open spec fn le_bytes(value: nat, width: nat) -> Seq<u8>
    decreases width,
{
    if width == 0 {
        Seq::<u8>::empty()
    } else {
        seq![(value % 256) as u8] + le_bytes(value / 256, (width - 1) as nat)
    }
}

/// The eight bytes of a 64-bit number.
pub open spec fn u64_bytes(value: u64) -> Seq<u8> {
    le_bytes(value as nat, 8)
}

/// 256 to the power `width`: one more than the largest number that `width`
/// bytes can spell.
pub open spec fn le_limit(width: nat) -> nat
    decreases width,
{
    if width == 0 {
        1
    } else {
        256 * le_limit((width - 1) as nat)
    }
}

/// Bytes spell a number below the limit of their count.
pub proof fn lemma_le_value_bound(bytes: Seq<u8>)
    ensures
        le_value(bytes) < le_limit(bytes.len()),
    decreases bytes.len(),
{
    if bytes.len() > 0 {
        lemma_le_value_bound(bytes.skip(1));
    }
}

/// Eight bytes can spell exactly the 64-bit numbers.
pub proof fn lemma_le_limit_8()
    ensures
        le_limit(4) == 0x1_0000_0000,
        le_limit(8) == 0x1_0000_0000_0000_0000,
{
    reveal_with_fuel(le_limit, 9);
}

/// Spelling a number takes as many bytes as asked for.
pub proof fn lemma_le_bytes_len(value: nat, width: nat)
    ensures
        le_bytes(value, width).len() == width,
    decreases width,
{
    if width > 0 {
        lemma_le_bytes_len(value / 256, (width - 1) as nat);
    }
}

/// Reading back what was spelled gives the number, when it fits the width.
pub proof fn lemma_le_value_of_bytes(value: nat, width: nat)
    requires
        value < le_limit(width),
    ensures
        le_value(le_bytes(value, width)) == value,
    decreases width,
{
    if width > 0 {
        let rest = le_bytes(value / 256, (width - 1) as nat);
        let all = le_bytes(value, width);
        lemma_le_value_of_bytes(value / 256, (width - 1) as nat);
        assert(all.skip(1) =~= rest);
        assert(all[0] == (value % 256) as u8);
    }
}

/// Spelling what was read gives the bytes back.
pub proof fn lemma_le_bytes_of_value(bytes: Seq<u8>)
    ensures
        le_bytes(le_value(bytes), bytes.len()) == bytes,
    decreases bytes.len(),
{
    if bytes.len() > 0 {
        let tail = bytes.skip(1);
        lemma_le_bytes_of_value(tail);
        let v = le_value(bytes);
        assert(v % 256 == bytes[0] as nat && v / 256 == le_value(tail)) by {
            let b = bytes[0] as nat;
            let t = le_value(tail);
            assert(v == b + 256 * t);
            assert((b + 256 * t) % 256 == b && (b + 256 * t) / 256 == t) by (nonlinear_arith)
                requires
                    b < 256,
            ;
        }
        assert(le_bytes(v, bytes.len()) =~= bytes);
    } else {
        assert(le_bytes(le_value(bytes), bytes.len()) =~= bytes);
    }
}

/// Reads the 64-bit number that the eight bytes from `at` on spell.
pub fn read_u64(bytes: &[u8], at: usize) -> (value: u64)
    requires
        at + 8 <= bytes.len(),
    ensures
        value == le_value(bytes@.subrange(at as int, at + 8)),
{
    let ghost field = bytes@.subrange(at as int, at + 8);
    let mut value: u64 = 0;
    let mut i: usize = 8;
    proof {
        assert(field.skip(8) =~= Seq::<u8>::empty());
        lemma_le_limit_8();
        reveal_with_fuel(le_limit, 1);
    }
    while i > 0
        invariant
            i <= 8,
            at + 8 <= bytes.len(),
            field == bytes@.subrange(at as int, at + 8),
            value == le_value(field.skip(i as int)),
            value < le_limit((8 - i) as nat),
        decreases i,
    {
        i = i - 1;
        proof {
            let here = field.skip(i as int);
            assert(here.skip(1) =~= field.skip(i + 1));
            assert(here[0] == bytes[at + i]);
            lemma_le_limit_8();
            lemma_le_value_bound(here);
            assert(le_limit((8 - i) as nat) == 256 * le_limit((8 - i - 1) as nat));
            lemma_le_limit_monotone((8 - i) as nat, 8);
        }
        value = value * 256 + bytes[at + i] as u64;
    }
    assert(field.skip(0) =~= field);
    value
}

/// More bytes can spell larger numbers.
pub proof fn lemma_le_limit_monotone(narrow: nat, wide: nat)
    requires
        narrow <= wide,
    ensures
        le_limit(narrow) <= le_limit(wide),
    decreases wide,
{
    if narrow < wide {
        lemma_le_limit_monotone(narrow, (wide - 1) as nat);
    }
}

/// Appends the eight bytes of a 64-bit number.
pub fn write_u64(out: &mut Vec<u8>, value: u64)
    ensures
        final(out)@ == old(out)@ + u64_bytes(value),
{
    let mut rest: u64 = value;
    let mut i: usize = 0;
    let ghost before = out@;
    proof {
        assert(le_bytes(value as nat, 8).len() == 8) by {
            lemma_le_bytes_len(value as nat, 8);
        }
    }
    while i < 8
        invariant
            i <= 8,
            out@.len() == before.len() + i,
            out@ + le_bytes(rest as nat, (8 - i) as nat) == before + le_bytes(value as nat, 8),
        decreases 8 - i,
    {
        let ghost prior = out@;
        out.push((rest % 256) as u8);
        proof {
            let tail = le_bytes((rest / 256) as nat, (8 - i - 1) as nat);
            assert(le_bytes(rest as nat, (8 - i) as nat) == seq![(rest % 256) as u8] + tail);
            assert(out@ + tail =~= prior + (seq![(rest % 256) as u8] + tail));
        }
        rest = rest / 256;
        i = i + 1;
    }
    assert(out@ + le_bytes(rest as nat, 0) =~= out@);
}

/// Takes the thirty-two bytes from `at` on as an identity.
pub fn read_address(bytes: &[u8], at: usize) -> (address: [u8; 32])
    requires
        at + 32 <= bytes.len(),
    ensures
        address@ == bytes@.subrange(at as int, at + 32),
{
    let mut address: [u8; 32] = [0u8; 32];
    let mut i: usize = 0;
    while i < 32
        invariant
            i <= 32,
            at + 32 <= bytes.len(),
            forall|j: int| 0 <= j < i ==> address[j] == bytes[at + j],
        decreases 32 - i,
    {
        address[i] = bytes[at + i];
        i = i + 1;
    }
    assert(address@ =~= bytes@.subrange(at as int, at + 32));
    address
}

/// Appends a run of bytes.
pub fn write_bytes(out: &mut Vec<u8>, bytes: &[u8])
    ensures
        final(out)@ == old(out)@ + bytes@,
{
    let ghost before = out@;
    let mut i: usize = 0;
    while i < bytes.len()
        invariant
            i <= bytes.len(),
            out@ == before + bytes@.subrange(0, i as int),
        decreases bytes.len() - i,
    {
        let ghost prior = out@;
        out.push(bytes[i]);
        assert(out@ =~= before + bytes@.subrange(0, i + 1));
        i = i + 1;
    }
    assert(bytes@.subrange(0, bytes.len() as int) =~= bytes@);
}

} // verus!
