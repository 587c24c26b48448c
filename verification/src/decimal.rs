//! Decimal notation for unsigned integers: writing a number out, and reading
//! one back.

use vstd::prelude::*;
use vstd::string::*;

verus! {

/// The character that writes the digit `d`, for `d` below ten.
pub open spec fn digit_char(d: nat) -> char {
    (48 + d) as char
}

/// The decimal notation of `n`: its digits, most significant first, without
/// sign or leading zeros.
pub open spec fn decimal(n: nat) -> Seq<char>
    decreases n,
{
    if n < 10 {
        seq![digit_char(n)]
    } else {
        decimal(n / 10).push(digit_char(n % 10))
    }
}

/// The one-character text of a digit.
fn digit_text(d: u64) -> (text: &'static str)
    requires
        d < 10,
    ensures
        text@ == seq![digit_char(d as nat)],
{
    proof {
        reveal_strlit("0");
        reveal_strlit("1");
        reveal_strlit("2");
        reveal_strlit("3");
        reveal_strlit("4");
        reveal_strlit("5");
        reveal_strlit("6");
        reveal_strlit("7");
        reveal_strlit("8");
        reveal_strlit("9");
    }
    let text = if d == 0 {
        "0"
    } else if d == 1 {
        "1"
    } else if d == 2 {
        "2"
    } else if d == 3 {
        "3"
    } else if d == 4 {
        "4"
    } else if d == 5 {
        "5"
    } else if d == 6 {
        "6"
    } else if d == 7 {
        "7"
    } else if d == 8 {
        "8"
    } else {
        "9"
    };
    assert(text@ =~= seq![digit_char(d as nat)]);
    text
}

/// Writes `n` in decimal notation.
pub fn decimal_string(n: u64) -> (text: String)
    ensures
        text@ == decimal(n as nat),
    decreases n,
{
    if n < 10 {
        String::from_str(digit_text(n))
    } else {
        let mut text = decimal_string(n / 10);
        text.append(digit_text(n % 10));
        assert(text@ =~= decimal((n / 10) as nat).push(digit_char((n % 10) as nat)));
        text
    }
}

/// Whether `c` is one of the ten decimal digits.
pub open spec fn is_digit(c: char) -> bool {
    '0' <= c <= '9'
}

/// The number that the digit `c` stands for.
pub open spec fn digit_value(c: char) -> nat
    recommends
        is_digit(c),
{
    (c as int - 48) as nat
}

/// Whether every character of `s` is a decimal digit.
pub open spec fn all_digits(s: Seq<char>) -> bool {
    forall|i: int| 0 <= i < s.len() ==> is_digit(#[trigger] s[i])
}

/// The number that a run of digits writes; the empty run writes zero.
pub open spec fn digits_value(s: Seq<char>) -> nat
    recommends
        all_digits(s),
    decreases s.len(),
{
    if s.len() == 0 {
        0
    } else {
        digits_value(s.drop_last()) * 10 + digit_value(s.last())
    }
}

/// The digits of an unsigned number text: the text itself, less one leading
/// plus sign where it has one.
pub open spec fn unsigned_digits(s: Seq<char>) -> Seq<char> {
    if s.len() > 0 && s[0] == '+' {
        s.skip(1)
    } else {
        s
    }
}

/// The `u32` that the text `s` writes: an optional plus sign, then one or
/// more decimal digits and nothing else, whose value fits the type. Any other
/// text writes none.
pub open spec fn u32_value(s: Seq<char>) -> Option<u32> {
    let digits = unsigned_digits(s);
    if digits.len() > 0 && all_digits(digits) && digits_value(digits) <= u32::MAX {
        Some(digits_value(digits) as u32)
    } else {
        None
    }
}

/// A run of digits is worth at least as much as any of its prefixes.
proof fn lemma_digits_value_prefix(s: Seq<char>, k: int)
    requires
        0 <= k <= s.len(),
    ensures
        digits_value(s.take(k)) <= digits_value(s),
    decreases s.len(),
{
    if k == s.len() {
        assert(s.take(k) =~= s);
    } else {
        assert(s.drop_last().take(k) =~= s.take(k));
        lemma_digits_value_prefix(s.drop_last(), k);
    }
}

/// Appending a character to a text appends it to the text's digits, unless
/// the character is the leading plus sign.
proof fn lemma_unsigned_digits_push(s: Seq<char>, c: char)
    requires
        s.len() > 0 || c != '+',
    ensures
        unsigned_digits(s.push(c)) == unsigned_digits(s).push(c),
{
    if s.len() > 0 && s[0] == '+' {
        assert(s.push(c).skip(1) =~= s.skip(1).push(c));
    }
}

/// The digits of a prefix of a text are a prefix of the text's digits.
proof fn lemma_unsigned_digits_take(s: Seq<char>, k: int)
    requires
        0 <= k <= s.len(),
    ensures
        unsigned_digits(s.take(k)).len() <= unsigned_digits(s).len(),
        unsigned_digits(s.take(k)) == unsigned_digits(s).take(
            unsigned_digits(s.take(k)).len() as int,
        ),
{
    if k > 0 && s[0] == '+' {
        assert(s.take(k).skip(1) =~= s.skip(1).take(k - 1));
    } else {
        assert(s.take(k) =~= unsigned_digits(s).take(k));
    }
}

/// A text with a prefix whose digits hold a character that is no digit, or
/// are worth more than a `u32` holds, writes no `u32`.
proof fn lemma_prefix_rules_out(s: Seq<char>, k: int)
    requires
        0 <= k <= s.len(),
        !all_digits(unsigned_digits(s.take(k))) || digits_value(unsigned_digits(s.take(k)))
            > u32::MAX,
    ensures
        u32_value(s) is None,
{
    let part = unsigned_digits(s.take(k));
    let whole = unsigned_digits(s);
    lemma_unsigned_digits_take(s, k);
    if !all_digits(part) {
        let j = choose|j: int| 0 <= j < part.len() && !is_digit(#[trigger] part[j]);
        assert(whole[j] == part[j]);
    } else {
        lemma_digits_value_prefix(whole, part.len() as int);
    }
}

/// Reads a `u32` in decimal notation.
pub fn parse_u32(text: &str) -> (parsed: Option<u32>)
    ensures
        parsed == u32_value(text@),
{
    let mut at_start = true;
    let mut any = false;
    let mut value: u64 = 0;
    for c in it: text.chars()
        invariant
            it.seq() == text@,
            at_start == (it.index() == 0),
            all_digits(unsigned_digits(text@.take(it.index()))),
            value == digits_value(unsigned_digits(text@.take(it.index()))),
            value <= u32::MAX,
            any == (unsigned_digits(text@.take(it.index())).len() > 0),
    {
        let ghost before = text@.take(it.index());
        let ghost after = text@.take(it.index() + 1);
        assert(after =~= before.push(c));
        if at_start && c == '+' {
            assert(unsigned_digits(after) =~= Seq::<char>::empty());
        } else {
            proof {
                lemma_unsigned_digits_push(before, c);
                assert(unsigned_digits(after).drop_last() =~= unsigned_digits(before));
            }
            if '0' <= c && c <= '9' {
                let digit: u64 = (c as u32 - 48) as u64;
                let next: u64 = value * 10 + digit;
                if next > 4294967295 {
                    proof {
                        lemma_prefix_rules_out(text@, it.index() + 1);
                    }
                    return None;
                }
                value = next;
                any = true;
            } else {
                proof {
                    assert(!is_digit(unsigned_digits(after).last()));
                    lemma_prefix_rules_out(text@, it.index() + 1);
                }
                return None;
            }
        }
        at_start = false;
    }
    assert(text@.take(text@.len() as int) =~= text@);
    if any {
        Some(value as u32)
    } else {
        None
    }
}

/// What `decimal` writes is a run of digits, at least one, worth the number
/// written.
pub proof fn lemma_decimal_digits(n: nat)
    ensures
        decimal(n).len() > 0,
        all_digits(decimal(n)),
        digits_value(decimal(n)) == n,
    decreases n,
{
    if n < 10 {
        assert(decimal(n).drop_last() =~= Seq::<char>::empty());
        assert(digits_value(decimal(n).drop_last()) == 0);
        assert(digit_value(decimal(n).last()) == n);
    } else {
        lemma_decimal_digits(n / 10);
        assert(decimal(n).drop_last() =~= decimal(n / 10));
        assert(digit_value(decimal(n).last()) == n % 10);
    }
}

/// Reading back what was written gives the number again: the decimal
/// notation of a number that a `u32` holds writes that `u32`.
pub proof fn law_decimal_round_trip(n: u32)
    ensures
        u32_value(decimal(n as nat)) == Some(n),
{
    lemma_decimal_digits(n as nat);
    assert(is_digit(decimal(n as nat)[0]));
}

} // verus!
