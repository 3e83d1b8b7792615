//! Decimal digits as text: what a digit string denotes, parsing in
//! the manner of `i32`, and the three-digit rendering of a page number.

use vstd::prelude::*;

verus! {

/// True when `c` is a decimal digit character.
pub open spec fn is_digit(c: char) -> bool {
    48 <= c as u32 && c as u32 <= 57
}

/// The numeric value of a decimal digit character.
pub open spec fn digit_val(c: char) -> int {
    c as u32 - 48
}

/// True when every character of `s` is a decimal digit.
pub open spec fn all_digits(s: Seq<char>) -> bool {
    forall|i: int| 0 <= i < s.len() ==> is_digit(#[trigger] s[i])
}

/// The number a sequence of decimal digit characters denotes.
pub open spec fn digits_value(s: Seq<char>) -> int
    decreases s.len(),
{
    if s.len() == 0 {
        0
    } else {
        10 * digits_value(s.drop_last()) + digit_val(s.last())
    }
}

/// The text after an optional leading sign character.
pub open spec fn unsigned_part(s: Seq<char>) -> Seq<char> {
    if s.len() > 0 && (s[0] == '+' || s[0] == '-') {
        s.drop_first()
    } else {
        s
    }
}

/// The sign a leading `-` denotes; `+` and no sign both mean positive.
pub open spec fn sign_of(s: Seq<char>) -> int {
    if s.len() > 0 && s[0] == '-' {
        -1
    } else {
        1
    }
}

/// The integer a piece of text denotes, if any: an optional sign
/// followed by at least one decimal digit and nothing else.
pub open spec fn parse_int(s: Seq<char>) -> Option<int> {
    let u = unsigned_part(s);
    if u.len() > 0 && all_digits(u) {
        Some(sign_of(s) * digits_value(u))
    } else {
        None
    }
}

/// The value `i32` parsing yields: as `parse_int`, rejected when the
/// denoted number does not fit in an `i32`.
pub open spec fn parse_i32(s: Seq<char>) -> Option<int> {
    match parse_int(s) {
        Some(v) => if i32::MIN <= v <= i32::MAX {
            Some(v)
        } else {
            None
        },
        None => None,
    }
}

/// The character that denotes a single decimal digit.
pub open spec fn digit_char(d: int) -> char {
    if d == 0 {
        '0'
    } else if d == 1 {
        '1'
    } else if d == 2 {
        '2'
    } else if d == 3 {
        '3'
    } else if d == 4 {
        '4'
    } else if d == 5 {
        '5'
    } else if d == 6 {
        '6'
    } else if d == 7 {
        '7'
    } else if d == 8 {
        '8'
    } else {
        '9'
    }
}

/// The three digit characters of a number in [100, 999].
pub open spec fn three_digit_text(n: int) -> Seq<char> {
    seq![digit_char(n / 100), digit_char((n / 10) % 10), digit_char(n % 10)]
}

/// A sequence of digits denotes a number that is not negative.
pub proof fn lemma_digits_value_nonneg(s: Seq<char>)
    requires
        all_digits(s),
    ensures
        digits_value(s) >= 0,
    decreases s.len(),
{
    if s.len() > 0 {
        lemma_digits_value_nonneg(s.drop_last());
    }
}

/// Extending a digit string to the right never shrinks its value.
pub proof fn lemma_digits_value_prefix(s: Seq<char>, k: int)
    requires
        all_digits(s),
        0 <= k <= s.len(),
    ensures
        digits_value(s.subrange(0, k)) <= digits_value(s),
    decreases s.len() - k,
{
    if k == s.len() {
        assert(s.subrange(0, k) =~= s);
    } else {
        lemma_digits_value_prefix(s, k + 1);
        assert(s.subrange(0, k + 1).drop_last() =~= s.subrange(0, k));
        lemma_digits_value_nonneg(s.subrange(0, k));
        assert(digits_value(s.subrange(0, k + 1)) == 10 * digits_value(s.subrange(0, k))
            + digit_val(s[k]));
    }
}

/// Law: the three-digit text of a number in [100, 999] parses back to
/// that number.
pub proof fn lemma_three_digit_text_parses(n: int)
    requires
        100 <= n <= 999,
    ensures
        parse_i32(three_digit_text(n)) == Some(n),
{
    let s = three_digit_text(n);
    let h = n / 100;
    let t = (n / 10) % 10;
    let o = n % 10;
    assert(1 <= h <= 9);
    assert(0 <= t <= 9);
    assert(0 <= o <= 9);
    assert(unsigned_part(s) == s);
    assert(sign_of(s) == 1);
    assert(all_digits(s)) by {
        assert(is_digit(s[0]));
        assert(is_digit(s[1]));
        assert(is_digit(s[2]));
    }
    assert(s.drop_last() =~= seq![digit_char(h), digit_char(t)]);
    assert(s.drop_last().drop_last() =~= seq![digit_char(h)]);
    assert(seq![digit_char(h)].drop_last() =~= Seq::<char>::empty());
    assert(digit_val(digit_char(h)) == h);
    assert(digit_val(digit_char(t)) == t);
    assert(digit_val(digit_char(o)) == o);
    assert(digits_value(Seq::<char>::empty()) == 0);
    assert(seq![digit_char(h)].last() == digit_char(h));
    assert(digits_value(seq![digit_char(h)]) == 10 * digits_value(seq![digit_char(h)].drop_last())
        + digit_val(seq![digit_char(h)].last()));
    assert(digits_value(seq![digit_char(h)]) == h);
    assert(digits_value(seq![digit_char(h), digit_char(t)]) == 10 * h + t);
    assert(digits_value(s) == 100 * h + 10 * t + o);
    assert(100 * h + 10 * t + o == n) by {
        vstd::arithmetic::div_mod::lemma_fundamental_div_mod(n, 10);
        vstd::arithmetic::div_mod::lemma_fundamental_div_mod(n / 10, 10);
        vstd::arithmetic::div_mod::lemma_div_denominator(n, 10, 10);
    }
}

/// Parses text as `i32` parsing does: an optional sign followed by one
/// or more decimal digits, rejected when malformed or out of range.
pub fn parse_channel_number(s: &str) -> (r: Option<i32>)
    ensures
        match r {
            Some(v) => parse_i32(s@) == Some(v as int),
            None => parse_i32(s@) is None,
        },
{
    let len = s.unicode_len();
    if len == 0 {
        return None;
    }
    let first = s.get_char(0);
    let start: usize = if first == '-' || first == '+' {
        1
    } else {
        0
    };
    let negative = first == '-';
    if start == len {
        return None;
    }
    let ghost u = unsigned_part(s@);
    proof {
        assert(u =~= s@.subrange(start as int, len as int));
    }
    let mut acc: u64 = 0;
    let mut i: usize = start;
    while i < len
        invariant
            s@.len() == len,
            start <= i <= len,
            start < len,
            u == s@.subrange(start as int, len as int),
            u == unsigned_part(s@),
            negative == (sign_of(s@) == -1),
            all_digits(s@.subrange(start as int, i as int)),
            acc == digits_value(s@.subrange(start as int, i as int)),
            acc <= 2_147_483_648,
        decreases len - i,
    {
        let c = s.get_char(i);
        let cv = c as u32;
        if cv < 48 || cv > 57 {
            proof {
                assert(u[i - start] == s@[i as int]);
                assert(!all_digits(u));
            }
            return None;
        }
        let d: u64 = (cv - 48) as u64;
        let next: u64 = acc * 10 + d;
        proof {
            assert(s@.subrange(start as int, i + 1).drop_last() =~= s@.subrange(
                start as int,
                i as int,
            ));
        }
        if next > 2_147_483_648 {
            proof {
                if all_digits(u) {
                    lemma_digits_value_prefix(u, i + 1 - start);
                    assert(u.subrange(0, i + 1 - start) =~= s@.subrange(start as int, i + 1));
                    assert(digits_value(u) >= next);
                }
            }
            return None;
        }
        acc = next;
        i += 1;
    }
    proof {
        assert(s@.subrange(start as int, len as int) =~= u);
    }
    if negative {
        Some((-(acc as i64)) as i32)
    } else {
        if acc > 2_147_483_647 {
            return None;
        }
        Some(acc as i32)
    }
}

} // verus!
