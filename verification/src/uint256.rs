//! The value of a 256-bit integer, and its decimal text form.

use vstd::prelude::*;
use crate::primitives::Uint256;

verus! {

/// The number whose little-endian bytes are `bytes`.
pub open spec fn le_value(bytes: Seq<u8>) -> nat
    decreases bytes.len(),
{
    if bytes.len() == 0 {
        0
    } else {
        bytes[0] as nat + 256 * le_value(bytes.drop_first())
    }
}

/// 256 to the power of `n`.
pub open spec fn pow256(n: nat) -> nat
    decreases n,
{
    if n == 0 {
        1
    } else {
        256 * pow256((n - 1) as nat)
    }
}

/// 10 to the power of `n`.
pub open spec fn pow10(n: nat) -> nat
    decreases n,
{
    if n == 0 {
        1
    } else {
        10 * pow10((n - 1) as nat)
    }
}

/// Whether `text` is one or more decimal digits.
pub open spec fn is_decimal(text: Seq<u8>) -> bool {
    &&& text.len() > 0
    &&& forall|i: int| 0 <= i < text.len() ==> 48 <= #[trigger] text[i] <= 57
}

/// The number that the decimal digits of `text` stand for.
pub open spec fn decimal_value(text: Seq<u8>) -> nat
    decreases text.len(),
{
    if text.len() == 0 {
        0
    } else {
        10 * decimal_value(text.drop_last()) + (text.last() - 48) as nat
    }
}

/// The number whose low bytes are `prefix` and whose higher part is `tail`.
spec fn le_with_tail(prefix: Seq<u8>, tail: nat) -> nat
    decreases prefix.len(),
{
    if prefix.len() == 0 {
        tail
    } else {
        prefix[0] as nat + 256 * le_with_tail(prefix.drop_first(), tail)
    }
}

proof fn lemma_push_tail(prefix: Seq<u8>, byte: u8, tail: nat)
    ensures
        le_with_tail(prefix.push(byte), tail) == le_with_tail(
            prefix,
            (byte as nat + 256 * tail) as nat,
        ),
    decreases prefix.len(),
{
    let longer = prefix.push(byte);
    let inner = (byte as nat + 256 * tail) as nat;
    if prefix.len() == 0 {
        assert(longer.drop_first() =~= Seq::<u8>::empty());
        assert(le_with_tail(longer.drop_first(), tail) == tail);
        assert(le_with_tail(longer, tail) == byte as nat + 256 * tail);
        assert(le_with_tail(prefix, inner) == inner);
    } else {
        assert(longer.drop_first() =~= prefix.drop_first().push(byte));
        assert(longer[0] == prefix[0]);
        lemma_push_tail(prefix.drop_first(), byte, tail);
        assert(le_with_tail(longer, tail) == longer[0] as nat + 256 * le_with_tail(
            longer.drop_first(),
            tail,
        ));
        assert(le_with_tail(prefix, inner) == prefix[0] as nat + 256 * le_with_tail(
            prefix.drop_first(),
            inner,
        ));
    }
}

proof fn lemma_tail_value(prefix: Seq<u8>, tail: nat)
    ensures
        le_with_tail(prefix, tail) == le_value(prefix) + tail * pow256(prefix.len()),
        le_value(prefix) < pow256(prefix.len()),
    decreases prefix.len(),
{
    if prefix.len() > 0 {
        let rest = prefix.drop_first();
        lemma_tail_value(rest, tail);
        let p = pow256(rest.len());
        assert(pow256(prefix.len()) == 256 * p);
        assert(256 * (tail * p) == tail * (256 * p)) by (nonlinear_arith);
        assert(le_with_tail(prefix, tail) == prefix[0] as nat + 256 * le_with_tail(rest, tail));
        assert(le_value(prefix) == prefix[0] as nat + 256 * le_value(rest));
    } else {
        assert(le_with_tail(prefix, tail) == tail);
        assert(le_value(prefix) == 0);
        assert(pow256(0) == 1);
    }
}

/// A number below 256 to the power of its length in bytes has one
/// little-endian form of that length.
pub proof fn lemma_value_determines_bytes(a: Seq<u8>, b: Seq<u8>)
    requires
        a.len() == b.len(),
        le_value(a) == le_value(b),
    ensures
        a == b,
    decreases a.len(),
{
    if a.len() > 0 {
        let x = le_value(a.drop_first());
        let y = le_value(b.drop_first());
        assert(a[0] as nat + 256 * x == b[0] as nat + 256 * y);
        assert(x == y && a[0] == b[0]) by (nonlinear_arith)
            requires
                a[0] as nat + 256 * x == b[0] as nat + 256 * y,
                a[0] < 256,
                b[0] < 256,
        ;
        lemma_value_determines_bytes(a.drop_first(), b.drop_first());
        assert(a =~= seq![a[0]] + a.drop_first());
        assert(b =~= seq![b[0]] + b.drop_first());
    }
    assert(a =~= b);
}

proof fn lemma_zero_value(bytes: Seq<u8>)
    ensures
        le_value(bytes) == 0 <==> forall|i: int| 0 <= i < bytes.len() ==> bytes[i] == 0u8,
    decreases bytes.len(),
{
    if bytes.len() > 0 {
        let rest = bytes.drop_first();
        lemma_zero_value(rest);
        if le_value(bytes) == 0 {
            assert forall|i: int| 0 <= i < bytes.len() implies bytes[i] == 0u8 by {
                if i > 0 {
                    assert(rest[i - 1] == bytes[i]);
                }
            }
        }
        if forall|i: int| 0 <= i < bytes.len() ==> bytes[i] == 0u8 {
            assert forall|i: int| 0 <= i < rest.len() implies rest[i] == 0u8 by {
                assert(rest[i] == bytes[i + 1]);
            }
        }
    }
}

proof fn lemma_digit_in_front(digit: u8, text: Seq<u8>)
    ensures
        decimal_value(seq![digit] + text) == (digit - 48) as nat * pow10(text.len())
            + decimal_value(text),
    decreases text.len(),
{
    let whole = seq![digit] + text;
    let d = (digit - 48) as nat;
    if text.len() == 0 {
        assert(whole.drop_last() =~= Seq::<u8>::empty());
        assert(whole.last() == digit);
        assert(decimal_value(whole.drop_last()) == 0);
        assert(decimal_value(whole) == 10 * decimal_value(whole.drop_last()) + d);
        assert(decimal_value(text) == 0);
        assert(pow10(0) == 1);
        assert(d * 1 == d) by (nonlinear_arith);
    } else {
        assert(whole.drop_last() =~= seq![digit] + text.drop_last());
        assert(whole.last() == text.last());
        lemma_digit_in_front(digit, text.drop_last());
        let p = pow10(text.drop_last().len());
        assert(pow10(text.len()) == 10 * p);
        assert(10 * (d * p) == d * (10 * p)) by (nonlinear_arith);
        assert(decimal_value(whole) == 10 * decimal_value(whole.drop_last()) + (whole.last()
            - 48) as nat);
        assert(decimal_value(text) == 10 * decimal_value(text.drop_last()) + (text.last()
            - 48) as nat);
    }
}

proof fn lemma_prefix_is_no_more(text: Seq<u8>, k: int)
    requires
        is_decimal(text),
        0 <= k <= text.len(),
    ensures
        decimal_value(text.subrange(0, k)) <= decimal_value(text),
    decreases text.len() - k,
{
    if k < text.len() {
        let next = text.subrange(0, k + 1);
        assert(next.drop_last() =~= text.subrange(0, k));
        assert(is_decimal(next));
        if k + 1 < text.len() {
            assert(is_decimal(text));
        }
        lemma_prefix_is_no_more(text, k + 1);
    } else {
        assert(text.subrange(0, k) =~= text);
    }
}

/// Divides by ten.
fn div_rem_10(x: &[u8; 32]) -> (out: ([u8; 32], u8))
    ensures
        le_value(x@) == 10 * le_value(out.0@) + out.1,
        out.1 < 10,
{
    let mut q: [u8; 32] = [0u8; 32];
    let mut rem: u8 = 0;
    let mut i: usize = 32;
    assert(x@.subrange(32, 32) =~= Seq::<u8>::empty());
    assert(q@.subrange(32, 32) =~= Seq::<u8>::empty());
    while i > 0
        invariant
            i <= 32,
            rem < 10,
            le_value(x@.subrange(i as int, 32)) == 10 * le_value(q@.subrange(i as int, 32)) + rem,
        decreases i,
    {
        i -= 1;
        let cur: u16 = rem as u16 * 256 + x[i] as u16;
        let ghost before = q@;
        q[i] = (cur / 10) as u8;
        rem = (cur % 10) as u8;
        proof {
            assert(x@.subrange(i as int, 32).drop_first() =~= x@.subrange(i + 1, 32));
            assert(q@.subrange(i as int, 32).drop_first() =~= before.subrange(i + 1, 32));
            assert(q@.subrange(i as int, 32)[0] == q@[i as int]);
            assert(x@.subrange(i as int, 32)[0] == x@[i as int]);
        }
    }
    assert(x@.subrange(0, 32) =~= x@);
    assert(q@.subrange(0, 32) =~= q@);
    (q, rem)
}

/// Multiplies by ten and adds a digit; the second result is what does not
/// fit in 32 bytes.
fn mul_10_add(x: &[u8; 32], digit: u8) -> (out: ([u8; 32], u8))
    requires
        digit < 10,
    ensures
        le_value(out.0@) + out.1 * pow256(32) == 10 * le_value(x@) + digit,
{
    let mut y: [u8; 32] = [0u8; 32];
    let mut carry: u8 = digit;
    let mut i: usize = 0;
    assert(x@.subrange(0, 32) =~= x@);
    assert(y@.subrange(0, 0) =~= Seq::<u8>::empty());
    while i < 32
        invariant
            i <= 32,
            carry < 10,
            le_with_tail(
                y@.subrange(0, i as int),
                (10 * le_value(x@.subrange(i as int, 32)) + carry) as nat,
            ) == 10 * le_value(x@) + digit,
        decreases 32 - i,
    {
        let t: u16 = x[i] as u16 * 10 + carry as u16;
        let ghost before = y@;
        let ghost tail_before = 10 * le_value(x@.subrange(i as int, 32)) + carry;
        y[i] = (t % 256) as u8;
        carry = (t / 256) as u8;
        proof {
            let rest = le_value(x@.subrange(i + 1, 32));
            assert(x@.subrange(i as int, 32).drop_first() =~= x@.subrange(i + 1, 32));
            assert(x@.subrange(i as int, 32)[0] == x@[i as int]);
            assert(y@.subrange(0, i + 1) =~= before.subrange(0, i as int).push(y@[i as int]));
            lemma_push_tail(
                before.subrange(0, i as int),
                y@[i as int],
                (10 * rest + carry) as nat,
            );
            assert(y@[i as int] as nat + 256 * (10 * rest + carry) == tail_before);
        }
        i += 1;
    }
    proof {
        assert(x@.subrange(32, 32) =~= Seq::<u8>::empty());
        assert(y@.subrange(0, 32) =~= y@);
        lemma_tail_value(y@, carry as nat);
    }
    (y, carry)
}

fn is_zero(x: &[u8; 32]) -> (zero: bool)
    ensures
        zero == (le_value(x@) == 0),
{
    let mut i: usize = 0;
    while i < 32
        invariant
            i <= 32,
            forall|j: int| 0 <= j < i ==> x@[j] == 0u8,
        decreases 32 - i,
    {
        if x[i] != 0 {
            proof {
                lemma_zero_value(x@);
            }
            return false;
        }
        i += 1;
    }
    proof {
        lemma_zero_value(x@);
    }
    true
}

impl Uint256 {
    /// The number that the integer holds.
    pub open spec fn spec_value(&self) -> nat {
        le_value(self.le_bytes@)
    }

    /// Writes the number in decimal, without leading zeros.
    pub fn to_decimal(&self) -> (text: Vec<u8>)
        ensures
            is_decimal(text@),
            decimal_value(text@) == self.spec_value(),
            text@.len() == 1 || text@[0] != 48u8,
    {
        let mut text: Vec<u8> = Vec::new();
        let mut x: [u8; 32] = self.le_bytes;
        if is_zero(&x) {
            text.push(48u8);
            proof {
                assert(text@.drop_last() =~= Seq::<u8>::empty());
                assert(decimal_value(text@.drop_last()) == 0);
                assert(decimal_value(text@) == 10 * decimal_value(text@.drop_last()) + (
                text@.last() - 48) as nat);
            }
            return text;
        }
        proof {
            assert(decimal_value(text@) == 0);
            assert(pow10(0) == 1);
            assert(le_value(x@) * 1 == le_value(x@)) by (nonlinear_arith);
        }
        while !is_zero(&x)
            invariant
                forall|i: int| 0 <= i < text@.len() ==> 48 <= #[trigger] text@[i] <= 57,
                self.spec_value() == le_value(x@) * pow10(text@.len()) + decimal_value(text@),
                text@.len() == 0 ==> le_value(x@) != 0,
                text@.len() > 0 && le_value(x@) == 0 ==> text@[0] != 48u8,
            decreases le_value(x@),
        {
            let (q, r) = div_rem_10(&x);
            let ghost before = text@;
            text.insert(0, 48 + r);
            proof {
                assert(text@ =~= seq![(48 + r) as u8] + before);
                lemma_digit_in_front((48 + r) as u8, before);
                let p = pow10(before.len());
                let big = le_value(x@);
                let small = le_value(q@);
                assert(pow10(text@.len()) == 10 * p);
                assert(big * p == small * (10 * p) + r * p) by (nonlinear_arith)
                    requires
                        big == 10 * small + r,
                ;
            }
            x = q;
        }
        text
    }

    /// Reads a number written in decimal, if it is one and fits in 256 bits.
    pub fn from_decimal(text: &[u8]) -> (number: Option<Uint256>)
        ensures
            number is Some <==> is_decimal(text@) && decimal_value(text@) < pow256(32),
            number matches Some(n) ==> n.spec_value() == decimal_value(text@),
    {
        if text.len() == 0 {
            return None;
        }
        let mut x: [u8; 32] = [0u8; 32];
        let mut i: usize = 0;
        proof {
            lemma_zero_value(x@);
            assert(text@.subrange(0, 0) =~= Seq::<u8>::empty());
        }
        while i < text.len()
            invariant
                i <= text@.len(),
                forall|j: int| 0 <= j < i ==> 48 <= #[trigger] text@[j] <= 57,
                le_value(x@) == decimal_value(text@.subrange(0, i as int)),
            decreases text@.len() - i,
        {
            let c = text[i];
            if c < 48 || c > 57 {
                return None;
            }
            let (y, carry) = mul_10_add(&x, c - 48);
            proof {
                let next = text@.subrange(0, i + 1);
                assert(next.drop_last() =~= text@.subrange(0, i as int));
                assert(next.last() == c);
                lemma_tail_value(y@, 0);
                if carry != 0 {
                    assert(carry * pow256(32) >= pow256(32)) by (nonlinear_arith)
                        requires
                            carry >= 1,
                    ;
                    if is_decimal(text@) {
                        lemma_prefix_is_no_more(text@, i + 1);
                    }
                }
            }
            if carry != 0 {
                return None;
            }
            x = y;
            i += 1;
        }
        proof {
            assert(text@.subrange(0, i as int) =~= text@);
            lemma_tail_value(x@, 0);
        }
        Some(Uint256 { le_bytes: x })
    }
}

/// What is written is read back as the same integer.
pub proof fn lemma_decimal_round_trip(number: Uint256, text: Seq<u8>, back: Uint256)
    requires
        decimal_value(text) == number.spec_value(),
        back.spec_value() == decimal_value(text),
    ensures
        back == number,
{
    lemma_value_determines_bytes(back.le_bytes@, number.le_bytes@);
    assert(back.le_bytes =~= number.le_bytes);
}

} // verus!
