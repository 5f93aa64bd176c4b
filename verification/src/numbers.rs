//! Decimal numbers as text: rendering a number to its canonical decimal
//! digits and reading digit strings back, with a proved round trip.

use vstd::prelude::*;

use crate::strutil;

verus! {

/// The decimal digit character for a value below ten.
pub open spec fn digit_char(d: nat) -> char {
    if d == 0 {
        '0'
    } else if d == 1 {
        '1'
    } else if d == 2 {
        '2'
    } else if d == 3 {
        '3'
    } else if d == 4 {
        '4'
    } else if d == 5 {
        '5'
    } else if d == 6 {
        '6'
    } else if d == 7 {
        '7'
    } else if d == 8 {
        '8'
    } else {
        '9'
    }
}

/// The numeric value of a decimal digit character.
pub open spec fn digit_value(c: char) -> nat {
    if c == '0' {
        0
    } else if c == '1' {
        1
    } else if c == '2' {
        2
    } else if c == '3' {
        3
    } else if c == '4' {
        4
    } else if c == '5' {
        5
    } else if c == '6' {
        6
    } else if c == '7' {
        7
    } else if c == '8' {
        8
    } else {
        9
    }
}

/// Whether the character is a decimal digit.
pub open spec fn is_digit(c: char) -> bool {
    c == '0' || c == '1' || c == '2' || c == '3' || c == '4' || c == '5' || c == '6' || c == '7'
        || c == '8' || c == '9'
}

/// The canonical decimal rendering of a number, most significant digit
/// first, with no sign and no leading zero.
pub open spec fn dec_str(n: nat) -> Seq<char>
    decreases n,
{
    if n < 10 {
        seq![digit_char(n)]
    } else {
        dec_str(n / 10).push(digit_char(n % 10))
    }
}

/// The value of a sequence of decimal digit characters.
pub open spec fn digits_value(s: Seq<char>) -> nat
    decreases s.len(),
{
    if s.len() == 0 {
        0
    } else {
        digits_value(s.drop_last()) * 10 + digit_value(s.last())
    }
}

/// Whether every character of `s` is a decimal digit.
pub open spec fn all_digits(s: Seq<char>) -> bool {
    forall|i: int| 0 <= i < s.len() ==> is_digit(#[trigger] s[i])
}

/// The decimal rendering round-trips: it consists of digits and reads back
/// as the same value.
pub proof fn lemma_dec_round_trip(n: nat)
    ensures
        all_digits(dec_str(n)),
        digits_value(dec_str(n)) == n,
        dec_str(n).len() >= 1,
    decreases n,
{
    if n < 10 {
        assert(dec_str(n) =~= seq![digit_char(n)]);
        assert(dec_str(n).drop_last() =~= Seq::<char>::empty());
        assert(digits_value(Seq::<char>::empty()) == 0);
        assert(digits_value(dec_str(n)) == 0 * 10 + digit_value(digit_char(n)));
        assert(digit_value(digit_char(n)) == n);
    } else {
        lemma_dec_round_trip(n / 10);
        assert(dec_str(n).drop_last() =~= dec_str(n / 10));
        assert(digit_value(digit_char(n % 10)) == n % 10);
        assert(digits_value(dec_str(n)) == (n / 10) * 10 + n % 10);
        assert(n / 10 * 10 + n % 10 == n) by (nonlinear_arith);
        assert forall|i: int| 0 <= i < dec_str(n).len() implies is_digit(
            #[trigger] dec_str(n)[i],
        ) by {
            if i < dec_str(n).len() - 1 {
                assert(dec_str(n)[i] == dec_str(n / 10)[i]);
            }
        }
    }
}

/// The exec digit character for a value below ten.
fn digit_char_exec(d: u32) -> (r: char)
    requires
        d < 10,
    ensures
        r == digit_char(d as nat),
{
    if d == 0 {
        '0'
    } else if d == 1 {
        '1'
    } else if d == 2 {
        '2'
    } else if d == 3 {
        '3'
    } else if d == 4 {
        '4'
    } else if d == 5 {
        '5'
    } else if d == 6 {
        '6'
    } else if d == 7 {
        '7'
    } else if d == 8 {
        '8'
    } else {
        '9'
    }
}

/// Renders a number in canonical decimal, most significant digit first.
pub fn render_decimal(n: u32) -> (r: String)
    ensures
        r@ == dec_str(n as nat),
    decreases n,
{
    if n < 10 {
        let mut out = String::new();
        strutil::push_char(&mut out, digit_char_exec(n));
        proof {
            assert(out@ =~= seq![digit_char(n as nat)]);
        }
        out
    } else {
        let mut out = render_decimal(n / 10);
        strutil::push_char(&mut out, digit_char_exec(n % 10));
        out
    }
}

proof fn lemma_digits_prefix_value(s: Seq<char>, k: int)
    requires
        0 <= k <= s.len(),
    ensures
        digits_value(s.take(k)) <= digits_value(s),
    decreases s.len() - k,
{
    if k < s.len() {
        lemma_digits_prefix_value(s, k + 1);
        assert(s.take(k + 1).drop_last() =~= s.take(k));
        assert(digits_value(s.take(k + 1)) == digits_value(s.take(k)) * 10 + digit_value(
            s.take(k + 1).last(),
        ));
    } else {
        assert(s.take(k) =~= s);
    }
}

/// Parses decimal text. Returns the value exactly when
/// the content is non-empty, consists of digits alone, and fits the integer
/// width; `None` otherwise.
pub fn parse_decimal(s: &str) -> (r: Option<u32>)
    ensures
        match r {
            Some(n) => s@.len() > 0 && all_digits(s@) && digits_value(s@) == n as nat,
            None => s@.len() == 0 || !all_digits(s@) || digits_value(s@) > u32::MAX as nat,
        },
{
    let chars = strutil::chars_of(s);
    if chars.len() == 0 {
        return None;
    }
    let mut value: u32 = 0;
    let mut i: usize = 0;
    proof {
        assert(s@.take(0) =~= Seq::<char>::empty());
    }
    while i < chars.len()
        invariant
            i <= chars@.len(),
            chars@ == s@,
            all_digits(s@.take(i as int)),
            value as nat == digits_value(s@.take(i as int)),
        decreases chars@.len() - i,
    {
        let c = chars[i];
        let d: u32 = if c == '0' {
            0
        } else if c == '1' {
            1
        } else if c == '2' {
            2
        } else if c == '3' {
            3
        } else if c == '4' {
            4
        } else if c == '5' {
            5
        } else if c == '6' {
            6
        } else if c == '7' {
            7
        } else if c == '8' {
            8
        } else if c == '9' {
            9
        } else {
            proof {
                assert(!is_digit(s@[i as int]));
            }
            return None;
        };
        proof {
            assert(is_digit(s@[i as int]));
            assert(d as nat == digit_value(s@[i as int]));
            assert(s@.take(i + 1).drop_last() =~= s@.take(i as int));
            assert(s@.take(i + 1).last() == s@[i as int]);
        }
        if value > (u32::MAX - d) / 10 {
            proof {
                assert(digits_value(s@.take(i + 1)) == value as nat * 10 + d as nat);
                assert(value as nat * 10 + d as nat > u32::MAX as nat) by (nonlinear_arith)
                    requires
                        value as nat > ((u32::MAX - d) / 10) as nat,
                        d < 10,
                ;
                lemma_digits_prefix_value(s@, i + 1);
            }
            return None;
        }
        proof {
            assert(value as nat * 10 + d as nat <= u32::MAX as nat) by (nonlinear_arith)
                requires
                    value as nat <= ((u32::MAX - d) / 10) as nat,
                    d < 10,
            ;
        }
        value = value * 10 + d;
        i = i + 1;
    }
    proof {
        assert(s@.take(s@.len() as int) =~= s@);
    }
    Some(value)
}

} // verus!
