//! Decimal text: parsing an unsigned integer from a digit string (as the
//! runtime probe needs for version numbers) and rendering one (as the
//! terminate invocations need for process identifiers).

use vstd::prelude::*;

verus! {

/// Whether `c` is one of the ten ASCII digits.
pub open spec fn is_ascii_digit(c: char) -> bool {
    48 <= c as int && c as int <= 57
}

/// The numeric value of an ASCII digit.
pub open spec fn digit_val(c: char) -> int {
    c as int - 48
}

/// Whether every character of `s` is an ASCII digit.
pub open spec fn all_digits(s: Seq<char>) -> bool {
    forall|i: int| 0 <= i < s.len() ==> is_ascii_digit(#[trigger] s[i])
}

/// The value of `s` read as a base-ten numeral.
pub open spec fn dec_val(s: Seq<char>) -> int
    decreases s.len(),
{
    if s.len() == 0 {
        0
    } else {
        dec_val(s.drop_last()) * 10 + digit_val(s.last())
    }
}

/// The ASCII digit character for a value in `0..10`.
pub open spec fn digit_char(d: int) -> char {
    if d == 0 {
        '0'
    } else if d == 1 {
        '1'
    } else if d == 2 {
        '2'
    } else if d == 3 {
        '3'
    } else if d == 4 {
        '4'
    } else if d == 5 {
        '5'
    } else if d == 6 {
        '6'
    } else if d == 7 {
        '7'
    } else if d == 8 {
        '8'
    } else {
        '9'
    }
}

/// The base-ten numeral for `n`, most significant digit first, with no
/// leading zeros (a single `'0'` for zero).
pub open spec fn dec_str_of(n: nat) -> Seq<char>
    decreases n,
{
    if n < 10 {
        seq![digit_char(n as int)]
    } else {
        dec_str_of(n / 10).push(digit_char((n % 10) as int))
    }
}

proof fn lemma_dec_val_nonneg(s: Seq<char>)
    requires
        all_digits(s),
    ensures
        dec_val(s) >= 0,
    decreases s.len(),
{
    if s.len() > 0 {
        assert(all_digits(s.drop_last()));
        lemma_dec_val_nonneg(s.drop_last());
    }
}

/// A numeral's value never shrinks when digits are appended: the value of a
/// prefix bounds the value of the whole.
proof fn lemma_dec_val_prefix(s: Seq<char>, j: int)
    requires
        all_digits(s),
        0 <= j <= s.len(),
    ensures
        dec_val(s.subrange(0, j)) <= dec_val(s),
    decreases s.len() - j,
{
    if j == s.len() {
        assert(s.subrange(0, j) =~= s);
    } else {
        lemma_dec_val_prefix(s, j + 1);
        let p = s.subrange(0, j + 1);
        assert(p.drop_last() =~= s.subrange(0, j));
        assert(all_digits(s.subrange(0, j)));
        lemma_dec_val_nonneg(s.subrange(0, j));
        assert(dec_val(p) == dec_val(s.subrange(0, j)) * 10 + digit_val(s[j]));
    }
}

/// Parses `s` as an unsigned base-ten numeral. Returns the value exactly
/// when `s` is non-empty, all digits, and the value fits in `u32`.
pub fn parse_u32_dec(s: &str) -> (r: Option<u32>)
    ensures
        r is Some <==> (s@.len() > 0 && all_digits(s@) && dec_val(s@) <= u32::MAX),
        r matches Some(v) ==> v == dec_val(s@),
{
    let n = s.unicode_len();
    if n == 0 {
        return None;
    }
    let mut acc: u64 = 0;
    let mut i: usize = 0;
    while i < n
        invariant
            0 <= i <= n,
            n == s@.len(),
            all_digits(s@.subrange(0, i as int)),
            acc == dec_val(s@.subrange(0, i as int)),
            acc <= u32::MAX,
        decreases n - i,
    {
        let c = s.get_char(i);
        let u = c as u32;
        if u < 48 || u > 57 {
            assert(!is_ascii_digit(s@[i as int]));
            return None;
        }
        let d: u64 = (u - 48) as u64;
        let next: u64 = acc * 10 + d;
        proof {
            let p = s@.subrange(0, i + 1);
            assert(p.drop_last() =~= s@.subrange(0, i as int));
            assert(p.last() == s@[i as int]);
            assert(next == dec_val(p));
        }
        if next > 0xffff_ffff {
            proof {
                if all_digits(s@) {
                    lemma_dec_val_prefix(s@, i + 1);
                }
            }
            return None;
        }
        acc = next;
        i = i + 1;
    }
    proof {
        assert(s@.subrange(0, n as int) =~= s@);
    }
    Some(acc as u32)
}

/// The digit run of an unsigned decimal numeral text: what follows the
/// optional leading `'+'` sign.
pub open spec fn unsigned_digits_of(s: Seq<char>) -> Seq<char> {
    if s.len() > 0 && s[0] == '+' {
        s.subrange(1, s.len() as int)
    } else {
        s
    }
}

/// Whether `s` spells an unsigned 32-bit decimal numeral: an optional
/// leading `'+'` sign followed by one or more digits, with a value that
/// fits in `u32`. This is what Rust's unsigned decimal parse accepts (a
/// `'-'` sign is not accepted, documented as "an optional `+` sign
/// followed by only digits").
pub open spec fn parses_as_u32(s: Seq<char>) -> bool {
    let d = unsigned_digits_of(s);
    d.len() > 0 && all_digits(d) && dec_val(d) <= u32::MAX
}

/// Parses `s` as Rust's unsigned decimal parse does: an optional leading
/// `'+'` sign followed by only digits.
pub fn parse_u32_text(s: &str) -> (r: Option<u32>)
    ensures
        r is Some <==> parses_as_u32(s@),
        r matches Some(v) ==> v == dec_val(unsigned_digits_of(s@)),
{
    let n = s.unicode_len();
    if n > 0 && s.get_char(0) == '+' {
        let rest = s.substring_char(1, n);
        proof {
            assert(rest@ == s@.subrange(1, s@.len() as int));
        }
        parse_u32_dec(rest)
    } else {
        parse_u32_dec(s)
    }
}

/// Parses `s` as an unsigned base-ten numeral, defaulting to zero when it
/// is empty, holds a non-digit, or does not fit in `u32`.
pub fn parse_u32_or_zero(s: &str) -> (r: u32)
    ensures
        r == (if s@.len() > 0 && all_digits(s@) && dec_val(s@) <= u32::MAX {
            dec_val(s@)
        } else {
            0
        }),
{
    match parse_u32_dec(s) {
        Some(v) => v,
        None => 0,
    }
}

proof fn lemma_digit_char_val(d: int)
    requires
        0 <= d < 10,
    ensures
        digit_val(digit_char(d)) == d,
        is_ascii_digit(digit_char(d)),
{
    assert('0' as int == 48);
    assert('1' as int == 49);
    assert('2' as int == 50);
    assert('3' as int == 51);
    assert('4' as int == 52);
    assert('5' as int == 53);
    assert('6' as int == 54);
    assert('7' as int == 55);
    assert('8' as int == 56);
    assert('9' as int == 57);
}

proof fn lemma_dec_str_of_digits(n: nat)
    ensures
        dec_str_of(n).len() >= 1,
        all_digits(dec_str_of(n)),
        dec_val(dec_str_of(n)) == n,
    decreases n,
{
    if n < 10 {
        lemma_digit_char_val(n as int);
        let s = dec_str_of(n);
        assert(s.drop_last() =~= Seq::<char>::empty());
        assert(dec_val(Seq::<char>::empty()) == 0);
        assert(s.last() == digit_char(n as int));
        assert(dec_val(s) == dec_val(s.drop_last()) * 10 + digit_val(s.last()));
    } else {
        lemma_dec_str_of_digits(n / 10);
        lemma_digit_char_val((n % 10) as int);
        let s = dec_str_of(n);
        let p = dec_str_of(n / 10);
        assert(s.drop_last() =~= p);
        assert(dec_val(s) == dec_val(p) * 10 + digit_val(digit_char((n % 10) as int)));
        vstd::arithmetic::div_mod::lemma_fundamental_div_mod(n as int, 10);
    }
}

fn digit_str(d: u32) -> (r: &'static str)
    requires
        d < 10,
    ensures
        r@ =~= seq![digit_char(d as int)],
{
    proof {
        reveal_strlit("0");
        reveal_strlit("1");
        reveal_strlit("2");
        reveal_strlit("3");
        reveal_strlit("4");
        reveal_strlit("5");
        reveal_strlit("6");
        reveal_strlit("7");
        reveal_strlit("8");
        reveal_strlit("9");
    }
    match d {
        0 => "0",
        1 => "1",
        2 => "2",
        3 => "3",
        4 => "4",
        5 => "5",
        6 => "6",
        7 => "7",
        8 => "8",
        _ => "9",
    }
}

/// Renders `n` as its base-ten numeral; the result is a non-empty digit
/// string that reads back to `n`.
pub fn u32_to_dec(n: u32) -> (r: String)
    ensures
        r@ == dec_str_of(n as nat),
        r@.len() >= 1,
        all_digits(r@),
        dec_val(r@) == n,
    decreases n,
{
    proof {
        lemma_dec_str_of_digits(n as nat);
    }
    if n < 10 {
        String::from_str(digit_str(n))
    } else {
        let mut s = u32_to_dec(n / 10);
        s.append(digit_str(n % 10));
        proof {
            assert(s@ =~= dec_str_of((n / 10) as nat).push(digit_char((n % 10) as int)));
        }
        s
    }
}

} // verus!
