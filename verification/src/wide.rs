//! A 128-bit unsigned integer stored as sixteen little-endian bytes.
//!
//! Account data on chain lays a 128-bit number out as sixteen bytes with byte alignment,
//! which the native integer type does not have everywhere. This type keeps the bytes and
//! converts at the edges.

use crate::codec::{
    le_bytes, le_value, lemma_le_bytes_index, lemma_le_bytes_len, lemma_le_bytes_of_value,
    lemma_le_value_bound, lemma_le_value_of_bytes, lemma_pow256_monotonic, lemma_pow256_positive,
    lemma_pow256_values, pow256,
};
use vstd::prelude::*;
use vstd::std_specs::cmp::PartialEqSpecImpl;

verus! {

/// Sixteen bytes that spell a 128-bit unsigned integer, least significant byte first.
#[allow(non_camel_case_types)]
#[derive(Clone, Copy, Debug)]
pub struct u128(pub [u8; 16]);

impl View for u128 {
    type V = nat;

    /// The number that the bytes spell.
    open spec fn view(&self) -> nat {
        le_value(self.0@)
    }
}

impl PartialEq for u128 {
    fn eq(&self, other: &u128) -> (r: bool) {
        let mut i: usize = 0;
        while i < 16
            invariant
                i <= 16,
                forall|j: int| 0 <= j < i ==> self.0@[j] == other.0@[j],
            decreases 16 - i,
        {
            if self.0[i] != other.0[i] {
                return false;
            }
            i += 1;
        }
        assert(self.0 =~= other.0);
        true
    }
}

impl Eq for u128 {

}

impl PartialEqSpecImpl for u128 {
    open spec fn obeys_eq_spec() -> bool {
        true
    }

    open spec fn eq_spec(&self, other: &u128) -> bool {
        *self == *other
    }
}

impl Default for u128 {
    /// Zero.
    fn default() -> (zero: u128)
        ensures
            zero.0@ == le_bytes(0, 16),
            zero@ == 0,
    {
        let zero = u128([0u8; 16]);
        proof {
            lemma_le_bytes_len(0, 16);
            assert forall|j: int| 0 <= j < 16 implies zero.0@[j] == le_bytes(0, 16)[j] by {
                lemma_le_bytes_index(0, 16, j as nat);
                lemma_pow256_positive(j as nat);
            }
            assert(zero.0@ =~= le_bytes(0, 16));
            lemma_le_value_of_bytes(0, 16);
            lemma_pow256_positive(16);
            assert(0nat % pow256(16) == 0);
        }
        zero
    }
}

impl u128 {
    /// The stored form of `val`.
    pub fn from_u128(val: core::primitive::u128) -> (stored: u128)
        ensures
            stored.0@ == le_bytes(val as nat, 16),
            stored@ == val,
    {
        let mut stored = u128([0u8; 16]);
        stored.set(val);
        stored
    }

    /// The number that the bytes spell.
    pub fn as_u128(&self) -> (value: core::primitive::u128)
        ensures
            value == self@,
    {
        let mut value: core::primitive::u128 = 0;
        let mut i: usize = 16;
        proof {
            assert(self.0@.skip(16) =~= Seq::<u8>::empty());
        }
        while i > 0
            invariant
                i <= 16,
                value == le_value(self.0@.skip(i as int)),
            decreases i,
        {
            i -= 1;
            proof {
                let here = self.0@.skip(i as int);
                assert(here.drop_first() =~= self.0@.skip(i + 1));
                assert(here[0] == self.0@[i as int]);
                lemma_le_value_bound(here);
                lemma_pow256_monotonic(here.len(), 16);
                lemma_pow256_values();
            }
            value = value * 256 + self.0[i] as core::primitive::u128;
        }
        assert(self.0@.skip(0) =~= self.0@);
        value
    }

    /// Stores `val`.
    pub fn set(&mut self, val: core::primitive::u128)
        ensures
            final(self).0@ == le_bytes(val as nat, 16),
            final(self)@ == val,
    {
        let mut bytes: [u8; 16] = [0u8; 16];
        let mut rest: core::primitive::u128 = val;
        let mut i: usize = 0;
        proof {
            assert(pow256(0) == 1);
        }
        while i < 16
            invariant
                i <= 16,
                rest == val as nat / pow256(i as nat),
                forall|j: int| 0 <= j < i ==> bytes@[j] == le_bytes(val as nat, 16)[j],
            decreases 16 - i,
        {
            proof {
                lemma_le_bytes_index(val as nat, 16, i as nat);
                lemma_pow256_positive(i as nat);
                assert((val as nat / pow256(i as nat)) / 256 == val as nat / pow256((i + 1) as nat))
                    by {
                    vstd::arithmetic::div_mod::lemma_div_denominator(
                        val as int,
                        pow256(i as nat) as int,
                        256,
                    );
                    assert(pow256(i as nat) * 256 == pow256((i + 1) as nat));
                }
            }
            bytes[i] = (rest % 256) as u8;
            rest = rest / 256;
            i += 1;
        }
        proof {
            lemma_le_bytes_len(val as nat, 16);
            assert(bytes@ =~= le_bytes(val as nat, 16));
            lemma_le_value_of_bytes(val as nat, 16);
            lemma_pow256_values();
        }
        self.0 = bytes;
    }
}

/// Storing a number and reading it back gives the number: every 128-bit value has an encoding
/// that spells it.
pub proof fn lemma_set_then_read(val: core::primitive::u128)
    ensures
        le_bytes(val as nat, 16).len() == 16,
        le_value(le_bytes(val as nat, 16)) == val,
{
    lemma_le_bytes_len(val as nat, 16);
    lemma_le_value_of_bytes(val as nat, 16);
    lemma_pow256_values();
}

/// Reading a stored value and storing it again leaves the sixteen bytes as they were, and
/// what is read fits the native type.
pub proof fn lemma_read_then_set(stored: u128)
    ensures
        stored@ <= core::primitive::u128::MAX,
        le_bytes(stored@, 16) == stored.0@,
{
    lemma_le_bytes_of_value(stored.0@);
    lemma_le_value_bound(stored.0@);
    lemma_pow256_values();
}

/// Two stored values spell the same number only if their bytes agree.
pub proof fn lemma_value_determines_bytes(a: u128, b: u128)
    ensures
        a@ == b@ <==> a == b,
{
    lemma_le_bytes_of_value(a.0@);
    lemma_le_bytes_of_value(b.0@);
    if a@ == b@ {
        assert(a.0 =~= b.0);
    }
}

} // verus!
