//! Text rules shared by the validators and the form reader.

use vstd::prelude::*;

verus! {

/// White space as Unicode defines it (the `White_Space` property).
pub open spec fn is_whitespace(c: char) -> bool {
    ||| '\u{9}' <= c <= '\u{d}'
    ||| c == ' '
    ||| c == '\u{85}'
    ||| c == '\u{a0}'
    ||| c == '\u{1680}'
    ||| '\u{2000}' <= c <= '\u{200a}'
    ||| c == '\u{2028}'
    ||| c == '\u{2029}'
    ||| c == '\u{202f}'
    ||| c == '\u{205f}'
    ||| c == '\u{3000}'
}

/// A text is blank when it holds nothing but white space, so that trimming
/// it leaves the empty text.
pub open spec fn is_blank(s: Seq<char>) -> bool {
    forall|i: int| 0 <= i < s.len() ==> is_whitespace(#[trigger] s[i])
}

/// Whether `c` is white space.
pub fn char_is_whitespace(c: char) -> (b: bool)
    ensures
        b == is_whitespace(c),
{
    ('\u{9}' <= c && c <= '\u{d}') || c == ' ' || c == '\u{85}' || c == '\u{a0}' || c
        == '\u{1680}' || ('\u{2000}' <= c && c <= '\u{200a}') || c == '\u{2028}' || c
        == '\u{2029}' || c == '\u{202f}' || c == '\u{205f}' || c == '\u{3000}'
}

/// Whether `s` is blank.
pub fn text_is_blank(s: &str) -> (b: bool)
    ensures
        b == is_blank(s@),
{
    let mut blank = true;
    for c in it: s.chars()
        invariant
            blank == is_blank(s@.take(it.index() as int)),
            it.seq() == s@,
    {
        proof {
            let n = it.index() as int;
            assert(s@.take(n + 1) =~= s@.take(n).push(s@[n]));
            assert(forall|i: int| 0 <= i < n ==> s@.take(n + 1)[i] == s@.take(n)[i]);
            assert(s@.take(n + 1)[n] == c);
        }
        if !char_is_whitespace(c) {
            blank = false;
        }
    }
    proof {
        assert(s@.take(s@.len() as int) =~= s@);
    }
    blank
}

/// Whether two texts are the same: of the same length, and with the same
/// character in each place.
pub fn same_text(a: &str, b: &str) -> (same: bool)
    ensures
        same == (a@ == b@),
{
    let first = chars_of(a);
    let second = chars_of(b);
    if first.len() != second.len() {
        return false;
    }
    let mut i: usize = 0;
    while i < first.len()
        invariant
            i <= first.len(),
            first.len() == second.len(),
            first@ == a@,
            second@ == b@,
            forall|k: int| 0 <= k < i ==> first@[k] == second@[k],
        decreases first.len() - i,
    {
        if first[i] != second[i] {
            assert(a@[i as int] != b@[i as int]);
            return false;
        }
        i += 1;
    }
    assert(a@ =~= b@);
    true
}

/// The text of an optional field, if there is one.
pub open spec fn text_of(field: Option<String>) -> Option<Seq<char>> {
    match field {
        Some(text) => Some(text@),
        None => None,
    }
}

/// A copy of an optional text.
pub fn clone_text(field: &Option<String>) -> (copy: Option<String>)
    ensures
        text_of(copy) == text_of(*field),
{
    match field {
        Some(text) => Some(text.clone()),
        None => None,
    }
}

/// The characters of `s`, one by one.
pub fn chars_of(s: &str) -> (chars: Vec<char>)
    ensures
        chars@ == s@,
{
    let mut chars: Vec<char> = Vec::new();
    for c in it: s.chars()
        invariant
            chars@ == s@.take(it.index() as int),
            it.seq() == s@,
    {
        proof {
            let n = it.index() as int;
            assert(s@.take(n + 1) =~= s@.take(n).push(c));
        }
        chars.push(c);
    }
    proof {
        assert(s@.take(s@.len() as int) =~= s@);
    }
    chars
}

/// What a flag reads as: `true` and `false` stand for themselves, and no
/// other text is a flag.
pub open spec fn flag_of(s: Seq<char>) -> Option<bool> {
    if s == "true"@ {
        Some(true)
    } else if s == "false"@ {
        Some(false)
    } else {
        None
    }
}

/// Reads a flag.
pub fn parse_flag(s: &str) -> (flag: Option<bool>)
    ensures
        flag == flag_of(s@),
{
    if same_text(s, "true") {
        Some(true)
    } else if same_text(s, "false") {
        Some(false)
    } else {
        None
    }
}

/// One of the digits `0` to `9`.
pub open spec fn is_digit(c: char) -> bool {
    '0' <= c <= '9'
}

/// The number that a digit stands for.
pub open spec fn digit_value(c: char) -> int {
    c as int - '0' as int
}

/// Every character of `s` is a digit.
pub open spec fn all_digits(s: Seq<char>) -> bool {
    forall|i: int| 0 <= i < s.len() ==> is_digit(#[trigger] s[i])
}

/// The number that the digits `s` write in base ten.
pub open spec fn decimal_value(s: Seq<char>) -> int
    decreases s.len(),
{
    if s.len() == 0 {
        0
    } else {
        decimal_value(s.drop_last()) * 10 + digit_value(s.last())
    }
}

/// Whether `at` is where the decimal point of `s` stands: the place of its
/// first point, or its length where it has none.
pub open spec fn is_point_position(s: Seq<char>, at: int) -> bool {
    &&& 0 <= at <= s.len()
    &&& forall|i: int| 0 <= i < at ==> #[trigger] s[i] != '.'
    &&& at < s.len() ==> s[at] == '.'
}

/// Where the decimal point of `s` stands.
pub open spec fn point_position(s: Seq<char>) -> int {
    choose|at: int| is_point_position(s, at)
}

/// The amount that an unsigned decimal text stands for, in hundredths: one
/// or more digits, and after them nothing, or a point and one or two digits.
pub open spec fn magnitude_of(s: Seq<char>) -> Option<int> {
    let at = point_position(s);
    let whole = s.take(at);
    let fraction = s.skip(at + 1);
    if whole.len() == 0 || !all_digits(whole) {
        None
    } else if at == s.len() {
        Some(decimal_value(whole) * 100)
    } else if fraction.len() == 1 && all_digits(fraction) {
        Some(decimal_value(whole) * 100 + digit_value(fraction[0]) * 10)
    } else if fraction.len() == 2 && all_digits(fraction) {
        Some(decimal_value(whole) * 100 + decimal_value(fraction))
    } else {
        None
    }
}

/// An amount of the given magnitude, negative or not, where the machine can
/// hold it.
pub open spec fn with_sign(magnitude: Option<int>, negative: bool) -> Option<i64> {
    match magnitude {
        Some(m) => if negative && -m >= i64::MIN {
            Some((-m) as i64)
        } else if !negative && m <= i64::MAX {
            Some(m as i64)
        } else {
            None
        },
        None => None,
    }
}

/// The amount that a decimal text stands for, in hundredths: an optional
/// sign before an unsigned decimal text, where the amount is one that the
/// machine can hold.
pub open spec fn amount_of(s: Seq<char>) -> Option<i64> {
    let negative = s.len() > 0 && s[0] == '-';
    let unsigned = if s.len() > 0 && (s[0] == '-' || s[0] == '+') {
        s.skip(1)
    } else {
        s
    };
    with_sign(magnitude_of(unsigned), negative)
}

/// A text has one point position.
pub proof fn point_position_is_unique(s: Seq<char>, at: int)
    requires
        is_point_position(s, at),
    ensures
        point_position(s) == at,
{
    let other = point_position(s);
    assert(is_point_position(s, other));
    if other < at {
        assert(s[other] != '.');
    }
    if at < other {
        assert(s[at] != '.');
    }
}

/// Digits write a number that is not negative.
pub proof fn decimal_value_is_not_negative(s: Seq<char>)
    requires
        all_digits(s),
    ensures
        0 <= decimal_value(s),
    decreases s.len(),
{
    if s.len() > 0 {
        assert(all_digits(s.drop_last())) by {
            assert forall|i: int| 0 <= i < s.drop_last().len() implies is_digit(
                #[trigger] s.drop_last()[i],
            ) by {
                assert(is_digit(s[i]));
            }
        }
        decimal_value_is_not_negative(s.drop_last());
        assert(is_digit(s[s.len() - 1]));
    }
}

/// Reads an amount of money, in hundredths, from decimal text such as
/// `12`, `12.5`, `-0.07` or `+3.20`.
pub fn parse_amount(s: &str) -> (amount: Option<i64>)
    ensures
        amount == amount_of(s@),
{
    let chars = chars_of(s);
    let n = chars.len();
    let negative = n > 0 && chars[0] == '-';
    let start: usize = if n > 0 && (chars[0] == '-' || chars[0] == '+') {
        1
    } else {
        0
    };
    let ghost body = s@.skip(start as int);
    proof {
        assert(s@.skip(0) =~= s@);
    }
    // The whole part: digits up to the point or the end.
    let mut whole: u128 = 0;
    let mut i: usize = start;
    while i < n && chars[i] != '.'
        invariant
            start <= i <= n,
            n == chars.len(),
            chars@ == s@,
            body == s@.skip(start as int),
            amount_of(s@) == with_sign(magnitude_of(body), negative),
            forall|k: int| 0 <= k < i - start ==> #[trigger] body[k] != '.',
            all_digits(body.take(i - start)),
            whole <= 0x1_0000_0000_0000_0000,
            whole < 0x1_0000_0000_0000_0000 ==> whole == decimal_value(body.take(i - start)),
            whole == 0x1_0000_0000_0000_0000 ==> decimal_value(body.take(i - start))
                >= 0x1_0000_0000_0000_0000,
        decreases n - i,
    {
        let c = chars[i];
        proof {
            assert(body[i - start] == c);
            assert(body.take(i - start + 1).drop_last() =~= body.take(i - start));
        }
        if !(c >= '0' && c <= '9') {
            proof {
                // The point stands after this character, which is no digit:
                // the whole part holds it.
                text_has_point_position(body);
                let at = point_position(body);
                if at <= i - start {
                    assert(body[at] == '.');
                }
                assert(body.take(at)[i - start] == c);
                assert(!all_digits(body.take(at)));
            }
            return None;
        }
        let digit: u128 = (c as u32 - '0' as u32) as u128;
        proof {
            assert forall|k: int| 0 <= k < i - start + 1 implies is_digit(
                #[trigger] body.take(i - start + 1)[k],
            ) by {
                if k < i - start {
                    assert(is_digit(body.take(i - start)[k]));
                }
            }
            decimal_value_is_not_negative(body.take(i - start));
        }
        if whole < 0x1_0000_0000_0000_0000 {
            whole = whole * 10 + digit;
            if whole > 0x1_0000_0000_0000_0000 {
                whole = 0x1_0000_0000_0000_0000;
            }
        }
        i += 1;
    }
    let ghost at = i - start;
    proof {
        assert(is_point_position(body, at));
        point_position_is_unique(body, at);
    }
    if i == start {
        return None;
    }
    // The fraction: nothing, or a point and one or two digits.
    let mut hundredths: u128 = 0;
    if i < n {
        let ghost fraction = body.skip(at + 1);
        let rest = n - i - 1;
        if rest == 1 {
            let c = chars[i + 1];
            proof {
                assert(fraction[0] == c);
            }
            if !(c >= '0' && c <= '9') {
                return None;
            }
            hundredths = ((c as u32 - '0' as u32) as u128) * 10;
        } else if rest == 2 {
            let c = chars[i + 1];
            let d = chars[i + 2];
            proof {
                assert(fraction[0] == c);
                assert(fraction[1] == d);
            }
            if !(c >= '0' && c <= '9') || !(d >= '0' && d <= '9') {
                return None;
            }
            hundredths = ((c as u32 - '0' as u32) as u128) * 10 + ((d as u32 - '0' as u32) as u128);
            proof {
                assert(fraction.drop_last() =~= seq![c]);
                assert(seq![c].drop_last() =~= Seq::<char>::empty());
                assert(decimal_value(seq![c]) == digit_value(c)) by {
                    assert(decimal_value(Seq::<char>::empty()) == 0);
                    assert(seq![c].last() == c);
                }
                assert(fraction.last() == d);
            }
        } else {
            return None;
        }
    }
    proof {
        assert(body.take(at) =~= body.take(i - start));
    }
    if whole >= 0x1_0000_0000_0000_0000 {
        return None;
    }
    let magnitude: u128 = whole * 100 + hundredths;
    if negative {
        if magnitude > 0x8000_0000_0000_0000 {
            None
        } else if magnitude == 0x8000_0000_0000_0000 {
            Some(i64::MIN)
        } else {
            Some(-(magnitude as i64))
        }
    } else {
        if magnitude > 0x7fff_ffff_ffff_ffff {
            None
        } else {
            Some(magnitude as i64)
        }
    }
}

/// Every text has a point position.
pub proof fn text_has_point_position(s: Seq<char>)
    ensures
        is_point_position(s, point_position(s)),
    decreases s.len(),
{
    if s.len() == 0 {
        assert(is_point_position(s, 0));
    } else if s[0] == '.' {
        assert(is_point_position(s, 0));
    } else {
        let rest = s.skip(1);
        text_has_point_position(rest);
        let at = point_position(rest);
        assert(is_point_position(s, at + 1)) by {
            assert forall|i: int| 0 <= i < at + 1 implies #[trigger] s[i] != '.' by {
                if i > 0 {
                    assert(rest[i - 1] != '.');
                }
            }
            if at + 1 < s.len() {
                assert(rest[at] == '.');
            }
        }
    }
}

/// The digit that stands for `d`.
pub open spec fn digit_char(d: nat) -> char
    recommends
        d < 10,
{
    if d == 0 {
        '0'
    } else if d == 1 {
        '1'
    } else if d == 2 {
        '2'
    } else if d == 3 {
        '3'
    } else if d == 4 {
        '4'
    } else if d == 5 {
        '5'
    } else if d == 6 {
        '6'
    } else if d == 7 {
        '7'
    } else if d == 8 {
        '8'
    } else {
        '9'
    }
}

/// `n` written in base ten, without leading zeros.
pub open spec fn decimal_text(n: nat) -> Seq<char>
    decreases n,
{
    if n < 10 {
        seq![digit_char(n)]
    } else {
        decimal_text(n / 10).push(digit_char(n % 10))
    }
}

/// The digit that stands for `d`, as a text.
fn digit_text(d: u128) -> (text: &'static str)
    requires
        d < 10,
    ensures
        text@ == seq![digit_char(d as nat)],
{
    proof {
        reveal_strlit("0");
        reveal_strlit("1");
        reveal_strlit("2");
        reveal_strlit("3");
        reveal_strlit("4");
        reveal_strlit("5");
        reveal_strlit("6");
        reveal_strlit("7");
        reveal_strlit("8");
        reveal_strlit("9");
    }
    let text = if d == 0 {
        "0"
    } else if d == 1 {
        "1"
    } else if d == 2 {
        "2"
    } else if d == 3 {
        "3"
    } else if d == 4 {
        "4"
    } else if d == 5 {
        "5"
    } else if d == 6 {
        "6"
    } else if d == 7 {
        "7"
    } else if d == 8 {
        "8"
    } else {
        "9"
    };
    assert(text@ =~= seq![digit_char(d as nat)]);
    text
}

/// Writes `n` in base ten.
pub fn to_decimal(n: u128) -> (text: String)
    ensures
        text@ == decimal_text(n as nat),
    decreases n,
{
    if n < 10 {
        digit_text(n).to_owned()
    } else {
        let mut text = to_decimal(n / 10);
        text.append(digit_text(n % 10));
        assert(text@ =~= decimal_text((n / 10) as nat).push(digit_char((n % 10) as nat)));
        text
    }
}

/// `a` followed by `b`.
pub fn joined(a: &str, b: &str) -> (text: String)
    ensures
        text@ == a@ + b@,
{
    let mut text = a.to_owned();
    text.append(b);
    text
}

} // verus!
