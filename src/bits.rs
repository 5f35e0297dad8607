use vstd::prelude::*;
use vstd::arithmetic::power2::{pow2, lemma_pow2_unfold};

use crate::errors::DecodeError;

verus! {

/// The big-endian unsigned value of a sequence of bits.
pub open spec fn value_of(s: Seq<bool>) -> nat
    decreases s.len(),
{
    if s.len() == 0 {
        0
    } else {
        2 * value_of(s.drop_last()) + if s.last() { 1nat } else { 0nat }
    }
}

/// The two's-complement value of a sequence of bits.
pub open spec fn signed_value_of(s: Seq<bool>) -> int {
    if s.len() > 0 && value_of(s) >= pow2((s.len() - 1) as nat) {
        value_of(s) - pow2(s.len() as nat)
    } else {
        value_of(s) as int
    }
}

/// The unsigned field of `width` bits that starts at bit `start`.
pub open spec fn field(s: Seq<bool>, start: int, width: int) -> nat {
    value_of(s.subrange(start, start + width))
}

pub open spec fn is_armor_char(c: u8) -> bool {
    (48 <= c && c <= 87) || (96 <= c && c <= 119)
}

/// The 6-bit value that an armor character stands for.
pub open spec fn armor_value(c: u8) -> u8 {
    if c <= 87 { (c - 48) as u8 } else { (c - 56) as u8 }
}

/// The six bits of a value below 64, most significant first.
pub open spec fn sextet(v: u8) -> Seq<bool> {
    seq![(v / 32) % 2 == 1, (v / 16) % 2 == 1, (v / 8) % 2 == 1, (v / 4) % 2 == 1, (v / 2) % 2 == 1, v % 2 == 1]
}

pub open spec fn all_armor(s: Seq<u8>) -> bool {
    forall|i: int| 0 <= i < s.len() ==> is_armor_char(#[trigger] s[i])
}

/// The bits carried by a string of armor characters, before fill bits are dropped.
pub open spec fn armor_bits(s: Seq<u8>) -> Seq<bool>
    decreases s.len(),
{
    if s.len() == 0 {
        Seq::empty()
    } else {
        armor_bits(s.drop_last()) + sextet(armor_value(s.last()))
    }
}

/// The bits of an armored payload once the trailing fill bits are removed.
pub open spec fn unarmored(s: Seq<u8>, fill_bits: nat) -> Seq<bool> {
    let n = 6 * s.len();
    armor_bits(s).take(if fill_bits <= n { n - fill_bits } else { 0 })
}

pub proof fn lemma_armor_bits_len(s: Seq<u8>)
    ensures
        armor_bits(s).len() == 6 * s.len(),
    decreases s.len(),
{
    if s.len() > 0 {
        lemma_armor_bits_len(s.drop_last());
    }
}

pub proof fn lemma_value_bound(s: Seq<bool>)
    ensures
        value_of(s) < pow2(s.len() as nat),
    decreases s.len(),
{
    if s.len() > 0 {
        lemma_value_bound(s.drop_last());
        lemma_pow2_unfold(s.len() as nat);
    } else {
        vstd::arithmetic::power2::lemma2_to64();
    }
}

/// A decoded payload: one entry per bit, in wire order.
pub struct BitBuffer {
    bits: Vec<bool>,
}

impl View for BitBuffer {
    type V = Seq<bool>;

    closed spec fn view(&self) -> Seq<bool> {
        self.bits@
    }
}

impl BitBuffer {
    pub fn len(&self) -> (r: usize)
        ensures
            r == self@.len(),
    {
        self.bits.len()
    }

    pub fn cursor(&self) -> (r: BitCursor<'_>)
        ensures
            r.bits() == self@,
            r.pos() == 0,
            r.wf(),
    {
        BitCursor { bits: &self.bits, pos: 0 }
    }
}

/// Maps one armor character to its 6-bit value.
pub fn armor_char_value(c: u8) -> (r: Option<u8>)
    ensures
        r == (if is_armor_char(c) { Some(armor_value(c)) } else { None::<u8> }),
{
    if 48 <= c && c <= 87 {
        Some(c - 48)
    } else if 96 <= c && c <= 119 {
        Some(c - 56)
    } else {
        None
    }
}

fn push_sextet(bits: &mut Vec<bool>, v: u8)
    ensures
        final(bits)@ == old(bits)@ + sextet(v),
{
    bits.push(v / 32 % 2 == 1);
    bits.push(v / 16 % 2 == 1);
    bits.push(v / 8 % 2 == 1);
    bits.push(v / 4 % 2 == 1);
    bits.push(v / 2 % 2 == 1);
    bits.push(v % 2 == 1);
    assert(bits@ =~= old(bits)@ + sextet(v));
}

/// Turns an armored payload into its bits, dropping `fill_bits` bits at the end.
pub fn unarmor(data: &[u8], fill_bits: usize) -> (r: Result<BitBuffer, DecodeError>)
    requires
        data@.len() <= usize::MAX / 6,
    ensures
        match r {
            Ok(b) => all_armor(data@) && b@ == unarmored(data@, fill_bits as nat),
            Err(e) => !all_armor(data@) && e == DecodeError::InvalidArmorCharacter,
        },
{
    let mut bits: Vec<bool> = Vec::new();
    let mut i: usize = 0;
    while i < data.len()
        invariant
            i <= data@.len(),
            data@.len() <= usize::MAX / 6,
            all_armor(data@.take(i as int)),
            bits@ == armor_bits(data@.take(i as int)),
        decreases data@.len() - i,
    {
        let c = data[i];
        match armor_char_value(c) {
            None => {
                assert(!is_armor_char(data@[i as int]));
                return Err(DecodeError::InvalidArmorCharacter);
            },
            Some(v) => {
                push_sextet(&mut bits, v);
                assert(data@.take(i + 1).drop_last() =~= data@.take(i as int));
                assert(all_armor(data@.take(i + 1)));
            },
        }
        i = i + 1;
    }
    assert(data@.take(i as int) =~= data@);
    proof {
        lemma_armor_bits_len(data@);
    }
    let n = 6 * data.len();
    let keep = if fill_bits <= n { n - fill_bits } else { 0 };
    bits.truncate(keep);
    assert(bits@ =~= unarmored(data@, fill_bits as nat));
    Ok(BitBuffer { bits })
}

/// A forward-only read position in a bit buffer.
pub struct BitCursor<'a> {
    bits: &'a Vec<bool>,
    pos: usize,
}

impl<'a> BitCursor<'a> {
    pub closed spec fn bits(&self) -> Seq<bool> {
        self.bits@
    }

    pub closed spec fn pos(&self) -> nat {
        self.pos as nat
    }

    pub closed spec fn wf(&self) -> bool {
        self.pos <= self.bits@.len()
    }

    /// The bits of the next `width` positions.
    pub open spec fn ahead(&self, width: nat) -> Seq<bool> {
        self.bits().subrange(self.pos() as int, (self.pos() + width) as int)
    }

    /// A second cursor at the same position, for reading ahead.
    pub fn copy_of(other: &BitCursor<'a>) -> (r: BitCursor<'a>)
        ensures
            r.bits() == other.bits(),
            r.pos() == other.pos(),
            r.wf() == other.wf(),
    {
        BitCursor { bits: other.bits, pos: other.pos }
    }

    pub fn remaining_bits(&self) -> (r: usize)
        requires
            self.wf(),
        ensures
            r == self.bits().len() - self.pos(),
    {
        self.bits.len() - self.pos
    }

    /// Reads the next `width` bits as a big-endian unsigned integer.
    pub fn take_unsigned(&mut self, width: u32) -> (r: Result<u32, DecodeError>)
        requires
            old(self).wf(),
            width <= 32,
        ensures
            final(self).wf(),
            final(self).bits() == old(self).bits(),
            match r {
                Ok(v) => width <= old(self).bits().len() - old(self).pos()
                    && v == value_of(old(self).ahead(width as nat))
                    && v < pow2(width as nat)
                    && final(self).pos() == old(self).pos() + width,
                Err(e) => width > old(self).bits().len() - old(self).pos()
                    && e == DecodeError::InsufficientBits
                    && final(self).pos() == old(self).pos(),
            },
    {
        if (width as usize) > self.bits.len() - self.pos {
            return Err(DecodeError::InsufficientBits);
        }
        let start = self.pos;
        let mut v: u64 = 0;
        let mut i: usize = 0;
        proof {
            vstd::arithmetic::power2::lemma2_to64();
        }
        while i < width as usize
            invariant
                i <= width <= 32,
                start + width <= self.bits@.len(),
                v == value_of(self.bits@.subrange(start as int, start + i)),
                v < pow2(i as nat),
                self.bits@.len() <= usize::MAX,
            decreases width - i,
        {
            let b = self.bits[start + i];
            proof {
                let s = self.bits@.subrange(start as int, start + i + 1);
                assert(s.drop_last() =~= self.bits@.subrange(start as int, start + i));
                lemma_pow2_unfold((i + 1) as nat);
                vstd::arithmetic::power2::lemma_pow2_strictly_increases((i + 1) as nat, 33);
                vstd::arithmetic::power2::lemma2_to64();
            }
            v = 2 * v + if b { 1u64 } else { 0u64 };
            i = i + 1;
        }
        proof {
            vstd::arithmetic::power2::lemma2_to64();
            if width < 32 {
                vstd::arithmetic::power2::lemma_pow2_strictly_increases(width as nat, 32);
            }
        }
        self.pos = start + width as usize;
        assert(self.bits@.subrange(start as int, start + i) =~= old(self).ahead(width as nat));
        Ok(v as u32)
    }

    /// Reads the next `width` bits as a two's-complement integer.
    pub fn take_signed(&mut self, width: u32) -> (r: Result<i32, DecodeError>)
        requires
            old(self).wf(),
            1 <= width <= 32,
        ensures
            final(self).wf(),
            final(self).bits() == old(self).bits(),
            match r {
                Ok(v) => width <= old(self).bits().len() - old(self).pos()
                    && v == signed_value_of(old(self).ahead(width as nat))
                    && final(self).pos() == old(self).pos() + width,
                Err(e) => width > old(self).bits().len() - old(self).pos()
                    && e == DecodeError::InsufficientBits
                    && final(self).pos() == old(self).pos(),
            },
    {
        let ghost ahead = old(self).ahead(width as nat);
        let u = self.take_unsigned(width)?;
        proof {
            lemma_value_bound(ahead);
            assert(ahead.len() == width);
        }
        let half = pow2_u64(width - 1);
        let full = pow2_u64(width);
        proof {
            lemma_pow2_unfold(width as nat);
            vstd::arithmetic::power2::lemma2_to64();
            if width < 32 {
                vstd::arithmetic::power2::lemma_pow2_strictly_increases(width as nat, 32);
            }
        }
        if (u as u64) >= half {
            Ok(((u as i64) - (full as i64)) as i32)
        } else {
            Ok(u as i32)
        }
    }
}

/// Two to the power `e`.
fn pow2_u64(e: u32) -> (r: u64)
    requires
        e <= 32,
    ensures
        r == pow2(e as nat),
{
    let mut r: u64 = 1;
    let mut i: u32 = 0;
    proof {
        vstd::arithmetic::power2::lemma2_to64();
    }
    while i < e
        invariant
            i <= e <= 32,
            r == pow2(i as nat),
        decreases e - i,
    {
        proof {
            lemma_pow2_unfold((i + 1) as nat);
            vstd::arithmetic::power2::lemma_pow2_strictly_increases((i + 1) as nat, 33);
            vstd::arithmetic::power2::lemma2_to64();
        }
        r = 2 * r;
        i = i + 1;
    }
    r
}

} // verus!
