//! Little-endian integer encodings, as the on-chain programs read them.

use vstd::prelude::*;

verus! {

/// 256 raised to the power `n`.
pub open spec fn pow256(n: nat) -> nat
    decreases n,
{
    if n == 0 {
        1
    } else {
        256 * pow256((n - 1) as nat)
    }
}

/// The `len` low-order bytes of `value`, least significant first.
pub open spec fn le_bytes(value: nat, len: nat) -> Seq<u8>
    decreases len,
{
    if len == 0 {
        Seq::empty()
    } else {
        seq![(value % 256) as u8] + le_bytes(value / 256, (len - 1) as nat)
    }
}

/// The number that `bytes` spell, least significant byte first.
pub open spec fn le_value(bytes: Seq<u8>) -> nat
    decreases bytes.len(),
{
    if bytes.len() == 0 {
        0
    } else {
        bytes[0] as nat + 256 * le_value(bytes.drop_first())
    }
}

/// The unsigned number whose `len` bytes are the two's complement form of `value`.
pub open spec fn twos_complement(value: int, len: nat) -> nat {
    if value < 0 {
        (value + pow256(len)) as nat
    } else {
        value as nat
    }
}

/// A power of 256 is positive.
pub proof fn lemma_pow256_positive(n: nat)
    ensures
        pow256(n) > 0,
    decreases n,
{
    if n > 0 {
        lemma_pow256_positive((n - 1) as nat);
    }
}

/// The powers of 256 that bound the integers of one, four, eight and sixteen bytes.
pub proof fn lemma_pow256_values()
    ensures
        pow256(0) == 1,
        pow256(1) == 0x100,
        pow256(4) == 0x1_0000_0000,
        pow256(8) == 0x1_0000_0000_0000_0000,
        pow256(16) == 0x1_0000_0000_0000_0000_0000_0000_0000_0000,
{
    reveal_with_fuel(pow256, 17);
}

/// An encoding of `len` bytes has `len` bytes.
pub proof fn lemma_le_bytes_len(value: nat, len: nat)
    ensures
        le_bytes(value, len).len() == len,
    decreases len,
{
    if len > 0 {
        lemma_le_bytes_len(value / 256, (len - 1) as nat);
    }
}

/// Appending one more byte to an encoding of `len` bytes gives the encoding of `len + 1` bytes.
pub proof fn lemma_le_bytes_push(value: nat, len: nat)
    ensures
        le_bytes(value, len + 1) == le_bytes(value, len).push(
            ((value / pow256(len)) % 256) as u8,
        ),
    decreases len,
{
    if len == 0 {
        assert(pow256(0) == 1);
        assert(le_bytes(value / 256, 0) =~= Seq::<u8>::empty());
        assert(le_bytes(value, 0) =~= Seq::<u8>::empty());
        assert(le_bytes(value, 1) =~= seq![(value % 256) as u8]);
        assert(le_bytes(value, 0).push((value % 256) as u8) =~= seq![(value % 256) as u8]);
    } else {
        let tail = (len - 1) as nat;
        lemma_le_bytes_push(value / 256, tail);
        lemma_pow256_positive(tail);
        assert((value / 256) / pow256(tail) == value / pow256(len)) by {
            vstd::arithmetic::div_mod::lemma_div_denominator(value as int, 256, pow256(tail) as int);
        }
        let last = ((value / pow256(len)) % 256) as u8;
        let head = seq![(value % 256) as u8];
        assert(le_bytes(value, len + 1) == head + le_bytes(value / 256, len));
        assert(le_bytes(value / 256, len) == le_bytes(value / 256, tail).push(last));
        assert(le_bytes(value, len) == head + le_bytes(value / 256, tail));
        assert(head + le_bytes(value / 256, tail).push(last) =~= (head + le_bytes(
            value / 256,
            tail,
        )).push(last));
    }
}

/// Byte `index` of an encoding is digit `index` of the number in base 256.
pub proof fn lemma_le_bytes_index(value: nat, len: nat, index: nat)
    requires
        index < len,
    ensures
        le_bytes(value, len)[index as int] == ((value / pow256(index)) % 256) as u8,
    decreases len,
{
    let tail = (len - 1) as nat;
    let rest = le_bytes(value / 256, tail);
    let head = seq![(value % 256) as u8];
    lemma_le_bytes_len(value / 256, tail);
    assert(le_bytes(value, len) == head + rest);
    if index == 0 {
        assert(pow256(0) == 1);
        assert((head + rest)[0] == head[0]);
    } else {
        let before = (index - 1) as nat;
        lemma_le_bytes_index(value / 256, tail, before);
        lemma_pow256_positive(before);
        assert((value / 256) / pow256(before) == value / pow256(index)) by {
            vstd::arithmetic::div_mod::lemma_div_denominator(
                value as int,
                256,
                pow256(before) as int,
            );
        }
        assert((head + rest)[index as int] == rest[before as int]);
    }
}

/// A higher power of 256 is no smaller.
pub proof fn lemma_pow256_monotonic(low: nat, high: nat)
    requires
        low <= high,
    ensures
        pow256(low) <= pow256(high),
    decreases high,
{
    if low < high {
        lemma_pow256_monotonic(low, (high - 1) as nat);
    }
}

/// An encoding spells a number below `256^len`.
pub proof fn lemma_le_value_bound(bytes: Seq<u8>)
    ensures
        le_value(bytes) < pow256(bytes.len()),
    decreases bytes.len(),
{
    if bytes.len() > 0 {
        lemma_le_value_bound(bytes.drop_first());
    }
}

/// Decoding the `len`-byte encoding of `value` gives back `value` modulo `256^len`.
pub proof fn lemma_le_value_of_bytes(value: nat, len: nat)
    ensures
        le_value(le_bytes(value, len)) == value % pow256(len),
    decreases len,
{
    if len > 0 {
        let rest = le_bytes(value / 256, (len - 1) as nat);
        let all = le_bytes(value, len);
        lemma_le_value_of_bytes(value / 256, (len - 1) as nat);
        lemma_pow256_positive((len - 1) as nat);
        assert(all.drop_first() =~= rest);
        assert(all[0] == (value % 256) as u8);
        let p = pow256((len - 1) as nat);
        assert(value % (256 * p) == 256 * ((value / 256) % p) + value % 256) by {
            vstd::arithmetic::div_mod::lemma_breakdown(value as int, 256, p as int);
        }
    }
}

/// Encoding the number that `bytes` spell gives back `bytes`.
pub proof fn lemma_le_bytes_of_value(bytes: Seq<u8>)
    ensures
        le_bytes(le_value(bytes), bytes.len()) == bytes,
    decreases bytes.len(),
{
    if bytes.len() > 0 {
        let rest = bytes.drop_first();
        lemma_le_bytes_of_value(rest);
        let v = le_value(bytes);
        assert(v % 256 == bytes[0] as nat && v / 256 == le_value(rest)) by {
            vstd::arithmetic::div_mod::lemma_fundamental_div_mod_converse(
                v as int,
                256,
                le_value(rest) as int,
                bytes[0] as int,
            );
        }
        assert(le_bytes(v, bytes.len()) =~= bytes);
    } else {
        assert(le_bytes(le_value(bytes), 0) =~= bytes);
    }
}

/// Appends the `len` low-order bytes of `value` to `out`, least significant first.
pub fn push_le(out: &mut Vec<u8>, value: u128, len: usize)
    ensures
        final(out)@ == old(out)@ + le_bytes(value as nat, len as nat),
{
    let mut rest: u128 = value;
    let mut i: usize = 0;
    proof {
        lemma_pow256_values();
        assert(out@ =~= old(out)@ + le_bytes(value as nat, 0));
    }
    while i < len
        invariant
            i <= len,
            rest == value as nat / pow256(i as nat),
            out@ == old(out)@ + le_bytes(value as nat, i as nat),
        decreases len - i,
    {
        let byte: u8 = (rest % 256) as u8;
        proof {
            lemma_le_bytes_push(value as nat, i as nat);
            lemma_pow256_positive(i as nat);
            assert((value as nat / pow256(i as nat)) / 256 == value as nat / pow256((i + 1) as nat))
                by {
                vstd::arithmetic::div_mod::lemma_div_denominator(
                    value as int,
                    pow256(i as nat) as int,
                    256,
                );
                assert(pow256(i as nat) * 256 == pow256((i + 1) as nat));
            }
            assert((old(out)@ + le_bytes(value as nat, i as nat)).push(byte) =~= old(out)@
                + le_bytes(value as nat, i as nat).push(byte));
        }
        out.push(byte);
        rest = rest / 256;
        i += 1;
    }
}

/// Appends the eight bytes of `value`.
pub fn push_u64(out: &mut Vec<u8>, value: u64)
    ensures
        final(out)@ == old(out)@ + le_bytes(value as nat, 8),
{
    push_le(out, value as u128, 8);
}

/// Appends the four bytes of `value` in two's complement form.
pub fn push_i32(out: &mut Vec<u8>, value: i32)
    ensures
        final(out)@ == old(out)@ + le_bytes(twos_complement(value as int, 4), 4),
{
    proof {
        lemma_pow256_values();
    }
    let wide: i64 = value as i64;
    let unsigned: u128 = if wide < 0 {
        (wide + 0x1_0000_0000) as u128
    } else {
        wide as u128
    };
    push_le(out, unsigned, 4);
}

/// Appends the eight bytes of `value` in two's complement form.
pub fn push_i64(out: &mut Vec<u8>, value: i64)
    ensures
        final(out)@ == old(out)@ + le_bytes(twos_complement(value as int, 8), 8),
{
    proof {
        lemma_pow256_values();
    }
    let wide: i128 = value as i128;
    let unsigned: u128 = if wide < 0 {
        (wide + 0x1_0000_0000_0000_0000) as u128
    } else {
        wide as u128
    };
    push_le(out, unsigned, 8);
}

} // verus!
