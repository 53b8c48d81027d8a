//! Percentages written as decimal numbers: reading a text such as `4.75`
//! and writing one.

use vstd::prelude::*;
use crate::amounts::Percent;
use crate::rounding::{magnitude, magnitude_of};

verus! {

/// The characters of `text`, in order.
pub fn characters(text: &str) -> (chars: Vec<char>)
    ensures
        chars@ == text@,
{
    let mut chars: Vec<char> = Vec::new();
    for c in it: text.chars()
        invariant
            chars@ == it.seq().take(it.index() as int),
    {
        chars.push(c);
    }
    chars
}

/// Whether `c` is one of the ten digits.
pub open spec fn is_digit(c: char) -> bool {
    '0' <= c <= '9'
}

/// The number that the digit `c` stands for.
pub open spec fn digit_value(c: char) -> nat
    recommends
        is_digit(c),
{
    (c as int - '0' as int) as nat
}

/// The digit that stands for `d`.
pub open spec fn digit_char(d: nat) -> char
    recommends
        d < 10,
{
    if d == 0 {
        '0'
    } else if d == 1 {
        '1'
    } else if d == 2 {
        '2'
    } else if d == 3 {
        '3'
    } else if d == 4 {
        '4'
    } else if d == 5 {
        '5'
    } else if d == 6 {
        '6'
    } else if d == 7 {
        '7'
    } else if d == 8 {
        '8'
    } else {
        '9'
    }
}

/// The digits of `n` in base ten, the most significant first, without
/// leading zeros; zero is written as one digit.
pub open spec fn nat_text(n: nat) -> Seq<char>
    decreases n,
{
    if n < 10 {
        seq![digit_char(n)]
    } else {
        nat_text(n / 10).push(digit_char(n % 10))
    }
}

/// The last `width` digits of `n` in base ten, with zeros in front where
/// `n` has fewer.
pub open spec fn fixed_text(n: nat, width: nat) -> Seq<char>
    decreases width,
{
    if width == 0 {
        Seq::empty()
    } else {
        fixed_text(n / 10, (width - 1) as nat).push(digit_char(n % 10))
    }
}

/// [`fixed_text`] without the zeros at its end.
pub open spec fn fraction_text(n: nat, width: nat) -> Seq<char>
    decreases width,
{
    if width == 0 {
        Seq::empty()
    } else if n % 10 == 0 {
        fraction_text(n / 10, (width - 1) as nat)
    } else {
        fixed_text(n, width)
    }
}

/// A percentage of `units` ten-billionths of a percent, written as a
/// decimal number: a minus sign where it is negative, the whole percents,
/// and, where there is a fraction, a full stop and the fraction's digits up
/// to the last that is not zero. Seven and a half percent are written `7.5`
/// and three percent `3`.
pub open spec fn percent_text(units: int) -> Seq<char> {
    let m = magnitude(units);
    let sign = if units < 0 {
        seq!['-']
    } else {
        Seq::<char>::empty()
    };
    let fraction = if m % 10_000_000_000 == 0 {
        Seq::<char>::empty()
    } else {
        seq!['.'] + fraction_text(m % 10_000_000_000, 10)
    };
    sign + nat_text(m / 10_000_000_000) + fraction
}

/// The text of one digit.
fn digit_str(d: u64) -> (text: &'static str)
    requires
        d < 10,
    ensures
        text@ == seq![digit_char(d as nat)],
{
    proof {
        reveal_strlit("0");
        reveal_strlit("1");
        reveal_strlit("2");
        reveal_strlit("3");
        reveal_strlit("4");
        reveal_strlit("5");
        reveal_strlit("6");
        reveal_strlit("7");
        reveal_strlit("8");
        reveal_strlit("9");
    }
    let text = if d == 0 {
        "0"
    } else if d == 1 {
        "1"
    } else if d == 2 {
        "2"
    } else if d == 3 {
        "3"
    } else if d == 4 {
        "4"
    } else if d == 5 {
        "5"
    } else if d == 6 {
        "6"
    } else if d == 7 {
        "7"
    } else if d == 8 {
        "8"
    } else {
        "9"
    };
    assert(text@ =~= seq![digit_char(d as nat)]);
    text
}

/// Appends the digits of `n` to `out`.
fn push_nat(out: &mut String, n: u64)
    ensures
        final(out)@ == old(out)@ + nat_text(n as nat),
    decreases n,
{
    if n >= 10 {
        push_nat(out, n / 10);
    }
    out.append(digit_str(n % 10));
    assert(final(out)@ =~= old(out)@ + nat_text(n as nat));
}

/// Appends the last `width` digits of `n` to `out`.
fn push_fixed(out: &mut String, n: u64, width: u64)
    ensures
        final(out)@ == old(out)@ + fixed_text(n as nat, width as nat),
    decreases width,
{
    if width > 0 {
        push_fixed(out, n / 10, width - 1);
        out.append(digit_str(n % 10));
    }
    assert(final(out)@ =~= old(out)@ + fixed_text(n as nat, width as nat));
}

/// Appends the last `width` digits of `n` to `out`, but for the zeros at
/// their end.
fn push_fraction(out: &mut String, n: u64, width: u64)
    ensures
        final(out)@ == old(out)@ + fraction_text(n as nat, width as nat),
    decreases width,
{
    if width == 0 {
        assert(final(out)@ =~= old(out)@ + fraction_text(n as nat, width as nat));
    } else if n % 10 == 0 {
        push_fraction(out, n / 10, width - 1);
    } else {
        push_fixed(out, n, width);
    }
}

/// Writes a percentage as a decimal number, as short as it can be written.
pub fn format_percent(value: Percent) -> (text: String)
    ensures
        text@ == percent_text(value@),
{
    let m = magnitude_of(value.units) as u64;
    let mut text = String::new();
    if value.units < 0 {
        text.append("-");
        proof {
            reveal_strlit("-");
        }
    }
    assert(text@ =~= (if value@ < 0 {
        seq!['-']
    } else {
        Seq::<char>::empty()
    }));
    push_nat(&mut text, m / 10_000_000_000);
    if m % 10_000_000_000 != 0 {
        text.append(".");
        proof {
            reveal_strlit(".");
        }
        push_fraction(&mut text, m % 10_000_000_000, 10);
    }
    assert(text@ =~= percent_text(value@));
    text
}

/// The number that a run of digits stands for in base ten; an empty run
/// stands for zero.
pub open spec fn digits_value(s: Seq<char>) -> nat
    decreases s.len(),
{
    if s.len() == 0 {
        0
    } else {
        digits_value(s.drop_last()) * 10 + digit_value(s.last())
    }
}

/// Whether every character of `s` is a digit.
pub open spec fn all_digits(s: Seq<char>) -> bool {
    forall|i: int| 0 <= i < s.len() ==> is_digit(#[trigger] s[i])
}

/// How many digits `s` begins with.
pub open spec fn leading_digits(s: Seq<char>) -> nat
    decreases s.len(),
{
    if s.len() > 0 && is_digit(s[0]) {
        1 + leading_digits(s.drop_first())
    } else {
        0
    }
}

/// Whether `s` begins with a sign.
pub open spec fn has_sign(s: Seq<char>) -> bool {
    s.len() > 0 && (s[0] == '+' || s[0] == '-')
}

/// `s` without its sign.
pub open spec fn unsigned_part(s: Seq<char>) -> Seq<char> {
    if has_sign(s) {
        s.drop_first()
    } else {
        s
    }
}

/// The digits before the full stop of an unsigned decimal number.
pub open spec fn whole_digits(body: Seq<char>) -> Seq<char> {
    body.take(leading_digits(body) as int)
}

/// What follows the full stop of an unsigned decimal number, or nothing
/// where the digits it begins with are all there is.
pub open spec fn fraction_digits(body: Seq<char>) -> Seq<char> {
    if leading_digits(body) < body.len() {
        body.skip(leading_digits(body) as int + 1)
    } else {
        Seq::empty()
    }
}

/// Whether `body` is an unsigned decimal number: digits, then perhaps a
/// full stop and more digits, with a digit on one side of the full stop at
/// least.
pub open spec fn is_decimal(body: Seq<char>) -> bool {
    &&& leading_digits(body) < body.len() ==> body[leading_digits(body) as int] == '.'
    &&& all_digits(fraction_digits(body))
    &&& leading_digits(body) + fraction_digits(body).len() >= 1
}

/// Ten to the power `k`.
pub open spec fn pow10(k: nat) -> nat
    decreases k,
{
    if k == 0 {
        1
    } else {
        10 * pow10((k - 1) as nat)
    }
}

/// The ten-billionths that the digits after a full stop stand for, rounded
/// to the nearest where there are more than ten digits, half going up.
pub open spec fn fraction_units(f: Seq<char>) -> nat {
    if f.len() <= 10 {
        digits_value(f) * pow10((10 - f.len()) as nat)
    } else if digit_value(f[10]) >= 5 {
        digits_value(f.take(10)) + 1
    } else {
        digits_value(f.take(10))
    }
}

/// The ten-billionths that a decimal number stands for, or `None` where `text`
/// is no decimal number or the ten-billionths are beyond the range of a 64-bit
/// count. A decimal number is an optional sign, `+` or `-`, and digits with
/// at most one full stop among, before or after them. Digits beyond the
/// tenth after the full stop round the tenth to the nearest, half going
/// away from zero.
pub open spec fn decimal_units(text: Seq<char>) -> Option<int> {
    let body = unsigned_part(text);
    let m = digits_value(whole_digits(body)) * 10_000_000_000 + fraction_units(fraction_digits(body));
    let value = if text.len() > 0 && text[0] == '-' {
        -m
    } else {
        m as int
    };
    if is_decimal(body) && i64::MIN <= value <= i64::MAX {
        Some(value)
    } else {
        None
    }
}

/// The number of leading digits is the first place that holds no digit.
proof fn lemma_leading_digits(s: Seq<char>, k: int)
    requires
        0 <= k <= s.len(),
        forall|j: int| 0 <= j < k ==> is_digit(#[trigger] s[j]),
        k < s.len() ==> !is_digit(s[k]),
    ensures
        leading_digits(s) == k,
    decreases k,
{
    if k > 0 {
        let rest = s.drop_first();
        assert forall|j: int| 0 <= j < k - 1 implies is_digit(#[trigger] rest[j]) by {
            assert(rest[j] == s[j + 1]);
        }
        lemma_leading_digits(rest, k - 1);
    }
}

/// Reading one more digit multiplies by ten and adds the digit.
proof fn lemma_digits_value_step(s: Seq<char>, from: int, to: int)
    requires
        0 <= from <= to < s.len(),
    ensures
        digits_value(s.subrange(from, to + 1)) == digits_value(s.subrange(from, to)) * 10
            + digit_value(s[to]),
{
    let longer = s.subrange(from, to + 1);
    assert(longer.drop_last() =~= s.subrange(from, to));
    assert(longer.last() == s[to]);
}

/// A run of digits stands for no less than its beginning does.
proof fn lemma_digits_value_grows(s: Seq<char>, from: int, mid: int, to: int)
    requires
        0 <= from <= mid <= to <= s.len(),
    ensures
        digits_value(s.subrange(from, mid)) <= digits_value(s.subrange(from, to)),
    decreases to - mid,
{
    if mid < to {
        lemma_digits_value_grows(s, from, mid, to - 1);
        lemma_digits_value_step(s, from, to - 1);
    }
}

/// The number of a character that is a digit.
fn digit_of(c: char) -> (d: u64)
    requires
        is_digit(c),
    ensures
        d == digit_value(c),
        d < 10,
{
    (c as u32 - 48) as u64
}

/// Whether `c` is a digit.
fn is_digit_char(c: char) -> (b: bool)
    ensures
        b == is_digit(c),
{
    '0' <= c && c <= '9'
}

/// The first place from `from` on that holds no digit.
fn skip_digits(cs: &Vec<char>, from: usize) -> (end: usize)
    requires
        from <= cs.len(),
    ensures
        from <= end <= cs.len(),
        forall|j: int| from <= j < end ==> is_digit(#[trigger] cs@[j]),
        end < cs.len() ==> !is_digit(cs@[end as int]),
{
    let mut i = from;
    while i < cs.len() && is_digit_char(cs[i])
        invariant
            from <= i <= cs.len(),
            forall|j: int| from <= j < i ==> is_digit(#[trigger] cs@[j]),
        decreases cs.len() - i,
    {
        i = i + 1;
    }
    i
}

/// The number that the digits from `from` up to `to` stand for, or `None`
/// where it is more than `limit`.
fn read_whole(cs: &Vec<char>, from: usize, to: usize, limit: u64) -> (value: Option<u64>)
    requires
        from <= to <= cs.len(),
        forall|j: int| from <= j < to ==> is_digit(#[trigger] cs@[j]),
        limit <= 1_000_000_000_000_000_000,
    ensures
        value is Some <==> digits_value(cs@.subrange(from as int, to as int)) <= limit,
        value matches Some(v) ==> v == digits_value(cs@.subrange(from as int, to as int)),
{
    let mut i = from;
    let mut value: u64 = 0;
    while i < to
        invariant
            from <= i <= to <= cs.len(),
            forall|j: int| from <= j < to ==> is_digit(#[trigger] cs@[j]),
            value == digits_value(cs@.subrange(from as int, i as int)),
            value <= limit <= 1_000_000_000_000_000_000,
        decreases to - i,
    {
        proof {
            lemma_digits_value_step(cs@, from as int, i as int);
        }
        value = value * 10 + digit_of(cs[i]);
        i = i + 1;
        if value > limit {
            proof {
                lemma_digits_value_grows(cs@, from as int, i as int, to as int);
            }
            return None;
        }
    }
    Some(value)
}

/// The ten-billionths that the digits from `from` up to `to` stand for
/// after a full stop.
fn read_fraction(cs: &Vec<char>, from: usize, to: usize) -> (units: u64)
    requires
        from <= to <= cs.len(),
        forall|j: int| from <= j < to ==> is_digit(#[trigger] cs@[j]),
    ensures
        units == fraction_units(cs@.subrange(from as int, to as int)),
        units <= 10_000_000_000,
{
    let ghost f = cs@.subrange(from as int, to as int);
    let kept_end: usize = if to - from > 10 {
        from + 10
    } else {
        to
    };
    let mut i = from;
    let mut units: u64 = 0;
    while i < kept_end
        invariant
            from <= i <= kept_end <= to <= cs.len(),
            kept_end - from <= 10,
            forall|j: int| from <= j < to ==> is_digit(#[trigger] cs@[j]),
            units == digits_value(cs@.subrange(from as int, i as int)),
            units < pow10((i - from) as nat),
        decreases kept_end - i,
    {
        proof {
            lemma_digits_value_step(cs@, from as int, i as int);
            reveal_with_fuel(pow10, 12);
        }
        units = units * 10 + digit_of(cs[i]);
        i = i + 1;
    }
    proof {
        reveal_with_fuel(pow10, 12);
    }
    if to - from > 10 {
        assert(f.take(10) =~= cs@.subrange(from as int, kept_end as int));
        assert(f[10] == cs@[from + 10]);
        if digit_of(cs[from + 10]) >= 5 {
            units = units + 1;
        }
    } else {
        assert(f =~= cs@.subrange(from as int, kept_end as int));
        let mut width: usize = to - from;
        let ghost read = units;
        while width < 10
            invariant
                to - from <= width <= 10,
                units * pow10((10 - width) as nat) == read * pow10((10 - (to - from)) as nat),
                units < pow10(width as nat),
            decreases 10 - width,
        {
            proof {
                reveal_with_fuel(pow10, 12);
                assert(units * 10 * pow10((10 - (width + 1)) as nat) == units * pow10(
                    (10 - width) as nat,
                )) by (nonlinear_arith)
                    requires
                        pow10((10 - width) as nat) == 10 * pow10((10 - (width + 1)) as nat),
                ;
            }
            units = units * 10;
            width = width + 1;
        }
    }
    units
}

/// Reads a percentage written as a decimal number: an optional sign and
/// digits with at most one full stop, such as `4.75`, `-3` or `.5`. `None`
/// where `text` is not of that form, or stands for more than a 64-bit count
/// of ten-billionths of a percent can hold.
pub fn parse_percent(text: &str) -> (value: Option<Percent>)
    ensures
        value is Some <==> decimal_units(text@) is Some,
        value matches Some(p) ==> decimal_units(text@) == Some(p@),
{
    let cs = characters(text);
    let n = cs.len();
    let signed = n > 0 && (cs[0] == '+' || cs[0] == '-');
    let negative = n > 0 && cs[0] == '-';
    let start: usize = if signed {
        1
    } else {
        0
    };
    let point = skip_digits(&cs, start);
    let ghost body = unsigned_part(text@);
    proof {
        assert(body =~= cs@.subrange(start as int, n as int));
        assert forall|j: int| 0 <= j < point - start implies is_digit(#[trigger] body[j]) by {
            assert(body[j] == cs@[start + j]);
        }
        lemma_leading_digits(body, point - start);
        assert(whole_digits(body) =~= cs@.subrange(start as int, point as int));
    }
    if point < n && cs[point] != '.' {
        return None;
    }
    let after_point: usize = if point < n {
        point + 1
    } else {
        n
    };
    let end = skip_digits(&cs, after_point);
    let ghost f = fraction_digits(body);
    proof {
        assert(f =~= cs@.subrange(after_point as int, n as int));
        if end < n {
            assert(f[end - after_point] == cs@[end as int]);
        } else {
            assert forall|j: int| 0 <= j < f.len() implies is_digit(#[trigger] f[j]) by {
                assert(f[j] == cs@[after_point + j]);
            }
        }
    }
    if end < n || (point - start) + (n - after_point) == 0 {
        return None;
    }
    assert(is_decimal(body));
    // 922_337_203 whole percents are the most whose ten-billionths a
    // 64-bit count can hold.
    match read_whole(&cs, start, point, 922_337_203) {
        None => None,
        Some(whole) => {
            let units = read_fraction(&cs, after_point, n);
            let m: u64 = whole * 10_000_000_000 + units;
            if negative {
                if m < 0x8000_0000_0000_0000 {
                    Some(Percent { units: -(m as i64) })
                } else if m == 0x8000_0000_0000_0000 {
                    Some(Percent { units: i64::MIN })
                } else {
                    None
                }
            } else {
                if m <= 0x7fff_ffff_ffff_ffff {
                    Some(Percent { units: m as i64 })
                } else {
                    None
                }
            }
        },
    }
}

/// The digits written for a number are digits, at least one, and stand for
/// the number.
proof fn lemma_nat_text(n: nat)
    ensures
        nat_text(n).len() >= 1,
        all_digits(nat_text(n)),
        digits_value(nat_text(n)) == n,
    decreases n,
{
    if n < 10 {
        let t = nat_text(n);
        assert(t.drop_last() =~= Seq::<char>::empty());
        assert(digits_value(t.drop_last()) == 0);
    } else {
        lemma_nat_text(n / 10);
        let t = nat_text(n);
        assert(t.drop_last() =~= nat_text(n / 10));
    }
}

/// The digits written at a fixed width are digits, as many as the width,
/// and stand for the number where it has no more digits than that.
proof fn lemma_fixed_text(n: nat, width: nat)
    requires
        n < pow10(width),
    ensures
        fixed_text(n, width).len() == width,
        all_digits(fixed_text(n, width)),
        digits_value(fixed_text(n, width)) == n,
    decreases width,
{
    if width > 0 {
        lemma_fixed_text(n / 10, (width - 1) as nat);
        let t = fixed_text(n, width);
        assert(t.drop_last() =~= fixed_text(n / 10, (width - 1) as nat));
    }
}

/// The digits written for a fraction are digits, no more than the width,
/// and stand for the fraction once the zeros left out are put back; a
/// fraction that is not zero has a digit.
proof fn lemma_fraction_text(n: nat, width: nat)
    requires
        n < pow10(width),
    ensures
        fraction_text(n, width).len() <= width,
        all_digits(fraction_text(n, width)),
        digits_value(fraction_text(n, width)) * pow10(
            (width - fraction_text(n, width).len()) as nat,
        ) == n,
        n > 0 ==> fraction_text(n, width).len() >= 1,
    decreases width,
{
    let text = fraction_text(n, width);
    if width == 0 {
        assert(pow10(0) == 1);
        assert(text =~= Seq::<char>::empty());
        assert(digits_value(text) == 0);
    } else if n % 10 == 0 {
        lemma_fraction_text(n / 10, (width - 1) as nat);
        assert(text == fraction_text(n / 10, (width - 1) as nat));
        let short = pow10((width - 1 - text.len()) as nat);
        assert(pow10((width - text.len()) as nat) == 10 * short);
        assert(digits_value(text) * (10 * short) == 10 * (digits_value(text) * short))
            by (nonlinear_arith);
    } else {
        lemma_fixed_text(n, width);
        assert(text == fixed_text(n, width));
        assert(pow10(0) == 1);
        assert(digits_value(text) * 1 == digits_value(text));
    }
}

/// Ten to the tenth power is ten billion.
proof fn lemma_pow10_of_ten()
    ensures
        pow10(10) == 10_000_000_000,
{
    assert(pow10(0) == 1);
    assert(pow10(1) == 10 * pow10(0));
    assert(pow10(2) == 10 * pow10(1));
    assert(pow10(3) == 10 * pow10(2));
    assert(pow10(4) == 10 * pow10(3));
    assert(pow10(5) == 10 * pow10(4));
    assert(pow10(6) == 10 * pow10(5));
    assert(pow10(7) == 10 * pow10(6));
    assert(pow10(8) == 10 * pow10(7));
    assert(pow10(9) == 10 * pow10(8));
    assert(pow10(10) == 10 * pow10(9));
}

/// The digits written after the full stop stand for the fraction they
/// were written for; where the fraction is zero, nothing is written and
/// nothing stands for zero.
proof fn lemma_written_fraction_reads_back(rest: nat)
    requires
        rest < 10_000_000_000,
    ensures
        rest == 0 ==> fraction_units(Seq::<char>::empty()) == 0,
        rest != 0 ==> fraction_units(fraction_text(rest, 10)) == rest,
        rest != 0 ==> fraction_text(rest, 10).len() >= 1,
        all_digits(fraction_text(rest, 10)),
{
    lemma_pow10_of_ten();
    lemma_fraction_text(rest, 10);
    if rest == 0 {
        let nothing = Seq::<char>::empty();
        assert(nothing.len() == 0);
        assert(digits_value(nothing) == 0);
        assert(fraction_units(nothing) == digits_value(nothing) * pow10(10));
        assert(0 * pow10(10) == 0);
    } else {
        let written = fraction_text(rest, 10);
        assert(written.len() <= 10);
        assert(fraction_units(written) == digits_value(written) * pow10(
            (10 - written.len()) as nat,
        ));
    }
}

/// An unsigned number as it is written, the digits of `whole` and then
/// `tail`, which is nothing or a full stop and digits, falls apart on
/// reading into the same digits and what follows the full stop.
proof fn lemma_written_body_reads_back(whole: nat, tail: Seq<char>)
    requires
        tail.len() > 0 ==> tail[0] == '.',
    ensures
        leading_digits(nat_text(whole) + tail) == nat_text(whole).len(),
        whole_digits(nat_text(whole) + tail) == nat_text(whole),
        digits_value(whole_digits(nat_text(whole) + tail)) == whole,
        fraction_digits(nat_text(whole) + tail) == (if tail.len() > 0 {
            tail.drop_first()
        } else {
            Seq::<char>::empty()
        }),
{
    let digits = nat_text(whole);
    let body = digits + tail;
    lemma_nat_text(whole);
    assert forall|j: int| 0 <= j < digits.len() implies is_digit(#[trigger] body[j]) by {
        assert(body[j] == digits[j]);
    }
    if tail.len() > 0 {
        assert(body[digits.len() as int] == tail[0]);
        assert(!is_digit('.'));
    } else {
        assert(body.len() == digits.len());
    }
    lemma_leading_digits(body, digits.len() as int);
    assert(body.take(digits.len() as int) =~= digits);
    if tail.len() > 0 {
        assert(body.skip(digits.len() as int + 1) =~= tail.drop_first());
    }
}

/// A percentage that is written and then read is the percentage itself.
#[verifier::spinoff_prover]
pub proof fn lemma_written_percent_reads_back(value: Percent)
    ensures
        decimal_units(percent_text(value@)) == Some(value@),
{
    let m = magnitude(value@);
    let whole = m / 10_000_000_000;
    let rest = m % 10_000_000_000;
    let text = percent_text(value@);
    let digits = nat_text(whole);
    let fraction = fraction_text(rest, 10);
    let tail = if rest == 0 {
        Seq::<char>::empty()
    } else {
        seq!['.'] + fraction
    };
    let body = digits + tail;
    lemma_nat_text(whole);
    lemma_written_fraction_reads_back(rest);
    lemma_written_body_reads_back(whole, tail);
    // The sign, and what is left without it.
    assert(is_digit(digits[0]));
    if value@ < 0 {
        assert(text =~= seq!['-'] + body);
        assert(text[0] == '-');
        assert(text.drop_first() =~= body);
    } else {
        assert(text =~= body);
        assert(text[0] == digits[0]);
    }
    assert(unsigned_part(text) == body);
    // What follows the full stop, and what it stands for.
    let read_fraction = fraction_digits(body);
    if rest == 0 {
        assert(tail.len() == 0);
        assert(read_fraction == Seq::<char>::empty());
        assert(fraction_units(read_fraction) == 0);
    } else {
        assert(tail[0] == '.');
        assert(tail.drop_first() =~= fraction);
        assert(read_fraction == fraction);
        assert(fraction_units(read_fraction) == rest);
    }
    assert(all_digits(read_fraction));
    assert(is_decimal(body));
    // The whole and the fraction together are the magnitude.
    assert(digits_value(whole_digits(body)) == whole);
    assert(whole * 10_000_000_000 + rest == m);
}

} // verus!
