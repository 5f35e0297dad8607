use vstd::prelude::*;

use crate::bits::{
    all_armor, armor_bits, armor_value, is_armor_char, sextet, unarmored, value_of, BitCursor,
};
use crate::errors::DecodeError;

verus! {

/// The printable character of a 6-bit code: 0-31 map to '@'..'_', 32-63 to ' '..'?'.
pub open spec fn sixbit_ascii(n: nat) -> u8 {
    if n < 32 { (n + 64) as u8 } else { n as u8 }
}

/// The characters packed in a bit sequence, six bits each.
pub open spec fn text_of(s: Seq<bool>) -> Seq<u8>
    decreases s.len(),
{
    if s.len() < 6 {
        Seq::empty()
    } else {
        text_of(s.take(s.len() - 6)).push(sixbit_ascii(value_of(s.subrange(s.len() - 6, s.len() as int))))
    }
}

/// Senders pad short text with '@' and with spaces.
pub open spec fn is_padding(c: u8) -> bool {
    c == 64 || c == 32
}

/// Drops the trailing padding.
pub open spec fn trim_padding(s: Seq<u8>) -> Seq<u8>
    decreases s.len(),
{
    if s.len() > 0 && is_padding(s.last()) {
        trim_padding(s.drop_last())
    } else {
        s
    }
}

pub open spec fn chars_of(s: Seq<u8>) -> Seq<char> {
    s.map_values(|b: u8| b as char)
}

/// Relies on String::push: the string grows by the one character.
#[verifier::external_body]
fn push_char(s: &mut String, c: char)
    ensures
        final(s)@ == old(s)@.push(c),
{
    s.push(c);
}

/// Reads `width` bits as 6-bit characters and drops the trailing padding.
pub fn decode_text(cursor: &mut BitCursor, width: u32) -> (r: Result<String, DecodeError>)
    requires
        old(cursor).wf(),
        width % 6 == 0,
    ensures
        final(cursor).wf(),
        final(cursor).bits() == old(cursor).bits(),
        match r {
            Ok(s) => width <= old(cursor).bits().len() - old(cursor).pos()
                && s@ == chars_of(trim_padding(text_of(old(cursor).ahead(width as nat))))
                && final(cursor).pos() == old(cursor).pos() + width,
            Err(e) => width > old(cursor).bits().len() - old(cursor).pos()
                && e == DecodeError::InsufficientBits
                && final(cursor).pos() == old(cursor).pos(),
        },
{
    if width as usize > cursor.remaining_bits() {
        return Err(DecodeError::InsufficientBits);
    }
    let ghost bits = cursor.bits();
    let ghost start = cursor.pos();
    let count = width / 6;
    let mut codes: Vec<u8> = Vec::new();
    let mut k: u32 = 0;
    while k < count
        invariant
            k <= count,
            count == width / 6,
            width % 6 == 0,
            cursor.wf(),
            cursor.bits() == bits,
            start + width <= bits.len(),
            cursor.pos() == start + 6 * k,
            codes@ == text_of(bits.subrange(start as int, start + 6 * k)),
        decreases count - k,
    {
        let v = match cursor.take_unsigned(6) {
            Ok(v) => v,
            Err(e) => {
                return Err(e);
            },
        };
        proof {
            crate::bits::lemma_value_bound(bits.subrange(start + 6 * k, start + 6 * k + 6));
            vstd::arithmetic::power2::lemma2_to64();
            let s = bits.subrange(start as int, start + 6 * (k + 1));
            assert(s.take(s.len() - 6) =~= bits.subrange(start as int, start + 6 * k));
            assert(s.subrange(s.len() - 6, s.len() as int) =~= bits.subrange(start + 6 * k, start + 6 * k + 6));
        }
        let code: u8 = if v < 32 { (v + 64) as u8 } else { v as u8 };
        codes.push(code);
        k = k + 1;
    }
    let ghost full = codes@;
    let mut n: usize = codes.len();
    assert(full.take(n as int) =~= full);
    while n > 0 && (codes[n - 1] == 64 || codes[n - 1] == 32)
        invariant
            n <= codes@.len(),
            codes@ == full,
            trim_padding(full.take(n as int)) == trim_padding(full),
        decreases n,
    {
        assert(full.take(n as int).drop_last() =~= full.take(n - 1));
        n = n - 1;
    }
    assert(trim_padding(full.take(n as int)) == full.take(n as int));
    let mut out = String::new();
    let mut i: usize = 0;
    while i < n
        invariant
            i <= n <= codes@.len(),
            out@ == chars_of(codes@.take(i as int)),
        decreases n - i,
    {
        push_char(&mut out, codes[i] as char);
        assert(chars_of(codes@.take(i + 1)) =~= chars_of(codes@.take(i as int)).push(codes@[i as int] as char));
        i = i + 1;
    }
    Ok(out)
}

/// The 6-bit code of a printable character of the AIS table.
pub open spec fn ascii_sixbit(c: u8) -> u8 {
    if c >= 64 { (c - 64) as u8 } else { c }
}

/// The armor character carrying a 6-bit code.
pub open spec fn armor_char(n: u8) -> u8 {
    if n < 40 { (n + 48) as u8 } else { (n + 56) as u8 }
}

pub open spec fn is_sixbit_text(t: Seq<u8>) -> bool {
    forall|i: int| 0 <= i < t.len() ==> 32 <= #[trigger] t[i] && t[i] <= 95
}

/// Packs text of the AIS 6-bit table into armor characters.
pub open spec fn armor_of_text(t: Seq<u8>) -> Seq<u8> {
    t.map_values(|c: u8| armor_char(ascii_sixbit(c)))
}

proof fn lemma_sextet_value(v: u8)
    requires
        v < 64,
    ensures
        value_of(sextet(v)) == v,
{
    let s = sextet(v);
    reveal_with_fuel(value_of, 7);
    assert(s.drop_last().drop_last().drop_last().drop_last().drop_last().drop_last() =~= Seq::<bool>::empty());
    assert(s.take(1) =~= s.drop_last().drop_last().drop_last().drop_last().drop_last());
    let b0: u8 = (v / 32) % 2;
    let b1: u8 = (v / 16) % 2;
    let b2: u8 = (v / 8) % 2;
    let b3: u8 = (v / 4) % 2;
    let b4: u8 = (v / 2) % 2;
    let b5: u8 = v % 2;
    assert(32 * b0 + 16 * b1 + 8 * b2 + 4 * b3 + 2 * b4 + b5 == v) by (bit_vector)
        requires
            v < 64,
            b0 == (v / 32) % 2,
            b1 == (v / 16) % 2,
            b2 == (v / 8) % 2,
            b3 == (v / 4) % 2,
            b4 == (v / 2) % 2,
            b5 == v % 2,
    ;
}

/// Text packed into armor and decoded again comes back unchanged, so after
/// trimming both sides agree on the padding.
pub proof fn lemma_armor_round_trip(t: Seq<u8>)
    requires
        is_sixbit_text(t),
    ensures
        all_armor(armor_of_text(t)),
        text_of(unarmored(armor_of_text(t), 0)) == t,
        trim_padding(text_of(unarmored(armor_of_text(t), 0))) == trim_padding(t),
    decreases t.len(),
{
    let a = armor_of_text(t);
    crate::bits::lemma_armor_bits_len(a);
    assert(unarmored(a, 0) =~= armor_bits(a));
    assert forall|i: int| 0 <= i < a.len() implies is_armor_char(#[trigger] a[i]) by {
        assert(32 <= t[i] <= 95);
    }
    if t.len() > 0 {
        let p = t.drop_last();
        assert(is_sixbit_text(p)) by {
            assert forall|i: int| 0 <= i < p.len() implies 32 <= #[trigger] p[i] && p[i] <= 95 by {
                assert(p[i] == t[i]);
            }
        }
        lemma_armor_round_trip(p);
        assert(a.drop_last() =~= armor_of_text(p));
        crate::bits::lemma_armor_bits_len(p);
        let c = t.last();
        let n = ascii_sixbit(c);
        assert(32 <= c <= 95) by {
            assert(t[t.len() - 1] == c);
        }
        assert(armor_value(a.last()) == n);
        lemma_sextet_value(n);
        let s = armor_bits(a);
        assert(s.take(s.len() - 6) =~= armor_bits(armor_of_text(p)));
        assert(s.subrange(s.len() - 6, s.len() as int) =~= sextet(n));
        assert(unarmored(armor_of_text(p), 0) =~= armor_bits(armor_of_text(p)));
        assert(sixbit_ascii(n as nat) == c);
        assert(text_of(s) =~= t);
    } else {
        assert(text_of(armor_bits(a)) =~= t);
    }
}

} // verus!
