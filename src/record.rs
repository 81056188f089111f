//! The stored high score: its decimal text, read and written.
use vstd::prelude::*;

verus! {

/// ASCII `0`.
pub const DIGIT_ZERO: u8 = 48;

/// ASCII `9`.
pub const DIGIT_NINE: u8 = 57;

/// ASCII `+`.
pub const PLUS_SIGN: u8 = 43;

pub open spec fn is_digit(b: u8) -> bool {
    DIGIT_ZERO <= b <= DIGIT_NINE
}

/// Value of a string of decimal digits, most significant first.
pub open spec fn digits_value(s: Seq<u8>) -> nat
    decreases s.len(),
{
    if s.len() == 0 {
        0
    } else {
        digits_value(s.drop_last()) * 10 + (s.last() - DIGIT_ZERO) as nat
    }
}

/// The text without one leading plus sign.
pub open spec fn unsigned_part(s: Seq<u8>) -> Seq<u8> {
    if s.len() > 0 && s[0] == PLUS_SIGN {
        s.drop_first()
    } else {
        s
    }
}

/// The text is an optional `+` and one or more digits whose value fits in `u32`.
pub open spec fn is_stored_number(s: Seq<u8>) -> bool {
    let d = unsigned_part(s);
    d.len() > 0 && (forall|i: int| 0 <= i < d.len() ==> is_digit(#[trigger] d[i]))
        && digits_value(d) <= u32::MAX
}

/// The high score that a stored text stands for: zero for anything else.
pub open spec fn stored_value(s: Seq<u8>) -> nat {
    if is_stored_number(s) {
        digits_value(unsigned_part(s))
    } else {
        0
    }
}

/// Decimal digits of `n`, without leading zeros.
pub open spec fn decimal(n: nat) -> Seq<u8>
    decreases n,
{
    if n < 10 {
        seq![(DIGIT_ZERO + n) as u8]
    } else {
        decimal(n / 10).push((DIGIT_ZERO + n % 10) as u8)
    }
}

/// Reads a stored high score: an optional `+` and decimal digits that fit in
/// `u32`; any other text counts as zero.
pub fn parse_high_score(text: &[u8]) -> (r: u32)
    ensures
        r == stored_value(text@),
{
    let start: usize = if text.len() > 0 && text[0] == PLUS_SIGN {
        1
    } else {
        0
    };
    let ghost d = unsigned_part(text@);
    assert(d =~= text@.subrange(start as int, text@.len() as int));
    if start == text.len() {
        return 0;
    }
    let cap: u64 = u32::MAX as u64 + 1;
    let mut acc: u64 = 0;
    let mut i: usize = start;
    while i < text.len()
        invariant
            start <= i <= text.len(),
            cap == 0x1_0000_0000,
            acc <= cap,
            d == unsigned_part(text@),
            d =~= text@.subrange(start as int, text@.len() as int),
            forall|k: int| start <= k < i ==> is_digit(#[trigger] text@[k]),
            acc == if digits_value(text@.subrange(start as int, i as int)) < cap {
                digits_value(text@.subrange(start as int, i as int))
            } else {
                cap as nat
            },
        decreases text.len() - i,
    {
        let b = text[i];
        if b < DIGIT_ZERO || b > DIGIT_NINE {
            assert(!is_digit(d[i - start]));
            assert(!is_stored_number(text@));
            return 0;
        }
        assert(text@.subrange(start as int, i + 1).drop_last() =~= text@.subrange(
            start as int,
            i as int,
        ));
        let next = acc * 10 + (b - DIGIT_ZERO) as u64;
        acc = if next < cap {
            next
        } else {
            cap
        };
        i = i + 1;
    }
    assert(text@.subrange(start as int, i as int) =~= d);
    assert forall|k: int| 0 <= k < d.len() implies is_digit(#[trigger] d[k]) by {
        assert(d[k] == text@[start + k]);
    }
    if acc < cap {
        acc as u32
    } else {
        0
    }
}

/// Decimal text of `n`, as it is stored.
pub fn format_high_score(n: u32) -> (r: Vec<u8>)
    ensures
        r@ == decimal(n as nat),
    decreases n,
{
    if n < 10 {
        vec![DIGIT_ZERO + n as u8]
    } else {
        let mut r = format_high_score(n / 10);
        r.push(DIGIT_ZERO + (n % 10) as u8);
        r
    }
}

proof fn lemma_decimal_digits(n: nat)
    ensures
        decimal(n).len() > 0,
        decimal(n)[0] != PLUS_SIGN,
        forall|i: int| 0 <= i < decimal(n).len() ==> is_digit(#[trigger] decimal(n)[i]),
        digits_value(decimal(n)) == n,
    decreases n,
{
    if n >= 10 {
        lemma_decimal_digits(n / 10);
        let prefix = decimal(n / 10);
        assert(decimal(n) == prefix.push((DIGIT_ZERO + n % 10) as u8));
        assert(decimal(n).drop_last() =~= prefix);
        assert(decimal(n)[0] == prefix[0]);
        assert forall|i: int| 0 <= i < decimal(n).len() implies is_digit(#[trigger] decimal(n)[i]) by {
            if i < prefix.len() {
                assert(decimal(n)[i] == prefix[i]);
            }
        }
        assert(decimal(n).last() == (DIGIT_ZERO + n % 10) as u8);
        assert(((DIGIT_ZERO + n % 10) as u8) - DIGIT_ZERO == n % 10);
        assert((n / 10) * 10 + n % 10 == n);
        assert(digits_value(decimal(n)) == digits_value(prefix) * 10 + (n % 10));
    } else {
        assert(decimal(n).drop_last() =~= Seq::<u8>::empty());
        assert(decimal(n).last() == (DIGIT_ZERO + n) as u8);
        assert(((DIGIT_ZERO + n) as u8) - DIGIT_ZERO == n);
        assert(digits_value(Seq::<u8>::empty()) == 0);
        assert(digits_value(decimal(n)) == digits_value(decimal(n).drop_last()) * 10 + n);
    }
}

/// Reading back the text written for a high score gives that high score.
pub proof fn lemma_stored_round_trip(n: u32)
    ensures
        stored_value(decimal(n as nat)) == n,
{
    lemma_decimal_digits(n as nat);
}

} // verus!
