//! Text form of fixed-point decimal numbers.
//!
//! A number is held as a sign and a magnitude counted in billionths (nine
//! decimal places). Its text shows a chosen number of those places, from
//! none to nine: an optional `-`, the whole part without leading zeros and,
//! where places are shown, a `.` followed by exactly that many digits.

use vstd::prelude::*;
use vstd::string::*;

verus! {

/// Magnitude of the number one.
pub const UNIT: u64 = 1_000_000_000;

/// Ten to the power `e`.
pub open spec fn pow10(e: nat) -> nat
    decreases e,
{
    if e == 0 {
        1
    } else {
        10 * pow10((e - 1) as nat)
    }
}

/// Magnitude of a signed value.
pub open spec fn magnitude_of(value: int) -> nat {
    if value < 0 {
        (-value) as nat
    } else {
        value as nat
    }
}

/// The character that shows the digit `d`.
pub open spec fn digit_char(d: nat) -> char {
    if d == 0 {
        '0'
    } else if d == 1 {
        '1'
    } else if d == 2 {
        '2'
    } else if d == 3 {
        '3'
    } else if d == 4 {
        '4'
    } else if d == 5 {
        '5'
    } else if d == 6 {
        '6'
    } else if d == 7 {
        '7'
    } else if d == 8 {
        '8'
    } else {
        '9'
    }
}

/// The digits of `n`, most significant first, without leading zeros.
pub open spec fn digits(n: nat) -> Seq<char>
    decreases n,
{
    if n < 10 {
        seq![digit_char(n)]
    } else {
        digits(n / 10).push(digit_char(n % 10))
    }
}

/// The last `width` digits of `n`, most significant first, zeros included.
pub open spec fn padded_digits(n: nat, width: nat) -> Seq<char>
    decreases width,
{
    if width == 0 {
        Seq::empty()
    } else {
        padded_digits(n / 10, (width - 1) as nat).push(digit_char(n % 10))
    }
}

/// Text of the number with the given sign and magnitude, shown with
/// `precision` decimal places. Places beyond `precision` are cut off.
pub open spec fn fixed_text(negative: bool, magnitude: nat, precision: nat) -> Seq<char> {
    let units = magnitude / pow10(9);
    let fraction = (magnitude % pow10(9)) / pow10((9 - precision) as nat);
    let sign = if negative {
        seq!['-']
    } else {
        Seq::empty()
    };
    let places = if precision == 0 {
        Seq::empty()
    } else {
        seq!['.'] + padded_digits(fraction, precision)
    };
    sign + digits(units) + places
}

/// Whether sign, magnitude and precision describe a number whose text loses
/// nothing: at most nine places, no digit beyond the shown places, a
/// magnitude of 64 bits, and no negative zero.
pub open spec fn canonical(negative: bool, magnitude: nat, precision: nat) -> bool {
    &&& precision <= 9
    &&& magnitude <= u64::MAX
    &&& magnitude % pow10((9 - precision) as nat) == 0
    &&& negative ==> magnitude > 0
}

spec fn is_digit(c: char) -> bool {
    '0' <= c && c <= '9'
}

spec fn digit_value(c: char) -> nat {
    (c as u32 - 48) as nat
}

/// Value of a string of digits read as a decimal number.
spec fn digits_value(s: Seq<char>) -> nat
    decreases s.len(),
{
    if s.len() == 0 {
        0
    } else {
        digits_value(s.drop_last()) * 10 + digit_value(s.last())
    }
}

/// End of the longest run of digits in `s` that starts at `from`.
spec fn digit_run(s: Seq<char>, from: int) -> int
    decreases s.len() - from,
{
    if 0 <= from < s.len() && is_digit(s[from]) {
        digit_run(s, from + 1)
    } else {
        from
    }
}

/// What a reader that accepts leading zeros and a negative zero makes of
/// `s`: sign, magnitude and number of places.
spec fn scan(s: Seq<char>) -> Option<(bool, nat, nat)> {
    let negative = s.len() > 0 && s[0] == '-';
    let start: int = if negative {
        1
    } else {
        0
    };
    let whole_end = digit_run(s, start);
    let units = digits_value(s.subrange(start, whole_end));
    if !vstd::utf8::is_ascii_chars(s) {
        None
    } else if whole_end == start || whole_end - start > 11 {
        None
    } else if whole_end == s.len() {
        Some((negative, units * pow10(9), 0nat))
    } else if s[whole_end] != '.' {
        None
    } else {
        let end = digit_run(s, whole_end + 1);
        let places = end - (whole_end + 1);
        let fraction = digits_value(s.subrange(whole_end + 1, end));
        if end != s.len() || places == 0 || places > 9 {
            None
        } else {
            Some(
                (negative, units * pow10(9) + fraction * pow10((9 - places) as nat), places as nat),
            )
        }
    }
}

/// `pow10` grows with its exponent and is never zero.
pub proof fn lemma_pow10_monotonic(a: nat, b: nat)
    requires
        a <= b,
    ensures
        1 <= pow10(a) <= pow10(b),
    decreases b,
{
    if a < b {
        lemma_pow10_monotonic(a, (b - 1) as nat);
    } else if a > 0 {
        lemma_pow10_monotonic((a - 1) as nat, (b - 1) as nat);
    }
}

/// The powers of ten that the nine places need.
pub proof fn lemma_pow10_values()
    ensures
        pow10(0) == 1,
        pow10(1) == 10,
        pow10(2) == 100,
        pow10(3) == 1_000,
        pow10(4) == 10_000,
        pow10(5) == 100_000,
        pow10(6) == 1_000_000,
        pow10(7) == 10_000_000,
        pow10(8) == 100_000_000,
        pow10(9) == 1_000_000_000,
        pow10(11) == 100_000_000_000,
        pow10(18) == 1_000_000_000_000_000_000,
{
    reveal_with_fuel(pow10, 20);
}

/// Ten to the power `e`, for the exponents that the nine places need.
pub(crate) fn pow10_u64(e: u8) -> (r: u64)
    requires
        e <= 9,
    ensures
        r == pow10(e as nat),
        1 <= r <= UNIT,
{
    proof {
        lemma_pow10_values();
    }
    if e == 0 {
        1
    } else if e == 1 {
        10
    } else if e == 2 {
        100
    } else if e == 3 {
        1_000
    } else if e == 4 {
        10_000
    } else if e == 5 {
        100_000
    } else if e == 6 {
        1_000_000
    } else if e == 7 {
        10_000_000
    } else if e == 8 {
        100_000_000
    } else {
        1_000_000_000
    }
}

fn digit_str(d: u64) -> (r: &'static str)
    requires
        d < 10,
    ensures
        r@ == seq![digit_char(d as nat)],
{
    proof {
        reveal_strlit("0");
        reveal_strlit("1");
        reveal_strlit("2");
        reveal_strlit("3");
        reveal_strlit("4");
        reveal_strlit("5");
        reveal_strlit("6");
        reveal_strlit("7");
        reveal_strlit("8");
        reveal_strlit("9");
    }
    let r = if d == 0 {
        "0"
    } else if d == 1 {
        "1"
    } else if d == 2 {
        "2"
    } else if d == 3 {
        "3"
    } else if d == 4 {
        "4"
    } else if d == 5 {
        "5"
    } else if d == 6 {
        "6"
    } else if d == 7 {
        "7"
    } else if d == 8 {
        "8"
    } else {
        "9"
    };
    assert(r@ =~= seq![digit_char(d as nat)]);
    r
}

fn push_digits(out: &mut String, n: u64)
    ensures
        final(out)@ == old(out)@ + digits(n as nat),
    decreases n,
{
    if n >= 10 {
        push_digits(out, n / 10);
    }
    out.append(digit_str(n % 10));
    assert(out@ =~= old(out)@ + digits(n as nat));
}

fn push_padded(out: &mut String, n: u64, width: u8)
    ensures
        final(out)@ == old(out)@ + padded_digits(n as nat, width as nat),
    decreases width,
{
    if width > 0 {
        push_padded(out, n / 10, width - 1);
        out.append(digit_str(n % 10));
    }
    assert(out@ =~= old(out)@ + padded_digits(n as nat, width as nat));
}

/// Writes the number with the given sign and magnitude with `precision`
/// decimal places.
pub(crate) fn render(negative: bool, magnitude: u64, precision: u8) -> (r: String)
    requires
        precision <= 9,
    ensures
        r@ == fixed_text(negative, magnitude as nat, precision as nat),
{
    proof {
        lemma_pow10_values();
        reveal_strlit("-");
        reveal_strlit(".");
    }
    let mut out = String::new();
    if negative {
        out.append("-");
    }
    push_digits(&mut out, magnitude / UNIT);
    if precision > 0 {
        out.append(".");
        let fraction: u64 = (magnitude % UNIT) / pow10_u64(9 - precision);
        push_padded(&mut out, fraction, precision);
    }
    assert(out@ =~= fixed_text(negative, magnitude as nat, precision as nat));
    out
}

proof fn lemma_digits(n: nat)
    ensures
        digits(n).len() >= 1,
        forall|i: int| 0 <= i < digits(n).len() ==> is_digit(#[trigger] digits(n)[i]),
        digits_value(digits(n)) == n,
    decreases n,
{
    let s = digits(n);
    if n < 10 {
        assert(s.drop_last() =~= Seq::<char>::empty());
        assert(digits_value(s.drop_last()) == 0);
    } else {
        lemma_digits(n / 10);
        assert(s.drop_last() =~= digits(n / 10));
    }
}

proof fn lemma_digits_len(n: nat, k: nat)
    requires
        n < pow10(k),
        k >= 1,
    ensures
        digits(n).len() <= k,
    decreases k,
{
    reveal_with_fuel(pow10, 2);
    if n >= 10 {
        lemma_digits_len(n / 10, (k - 1) as nat);
    }
}

proof fn lemma_padded(n: nat, width: nat)
    requires
        n < pow10(width),
    ensures
        padded_digits(n, width).len() == width,
        forall|i: int|
            0 <= i < width ==> is_digit(#[trigger] padded_digits(n, width)[i]),
        digits_value(padded_digits(n, width)) == n,
    decreases width,
{
    let s = padded_digits(n, width);
    if width > 0 {
        lemma_padded(n / 10, (width - 1) as nat);
        assert(s.drop_last() =~= padded_digits(n / 10, (width - 1) as nat));
    }
}

proof fn lemma_digit_run(s: Seq<char>, from: int, to: int)
    requires
        0 <= from <= to <= s.len(),
        forall|i: int| from <= i < to ==> is_digit(#[trigger] s[i]),
        to == s.len() || !is_digit(s[to]),
    ensures
        digit_run(s, from) == to,
    decreases to - from,
{
    if from < to {
        lemma_digit_run(s, from + 1, to);
    }
}

proof fn lemma_pow10_split(precision: nat)
    requires
        precision <= 9,
    ensures
        pow10(precision) * pow10((9 - precision) as nat) == 1_000_000_000,
        pow10((9 - precision) as nat) * pow10(precision) == 1_000_000_000,
        pow10(precision) > 0,
        pow10((9 - precision) as nat) > 0,
{
    lemma_pow10_values();
    assert(pow10(precision) * pow10((9 - precision) as nat) == pow10((9 - precision) as nat)
        * pow10(precision)) by (nonlinear_arith);
    if precision == 0 {
        assert(pow10(0) * pow10(9) == 1_000_000_000);
    } else if precision == 1 {
        assert(pow10(1) * pow10(8) == 1_000_000_000);
    } else if precision == 2 {
        assert(pow10(2) * pow10(7) == 1_000_000_000);
    } else if precision == 3 {
        assert(pow10(3) * pow10(6) == 1_000_000_000);
    } else if precision == 4 {
        assert(pow10(4) * pow10(5) == 1_000_000_000);
    } else if precision == 5 {
        assert(pow10(5) * pow10(4) == 1_000_000_000);
    } else if precision == 6 {
        assert(pow10(6) * pow10(3) == 1_000_000_000);
    } else if precision == 7 {
        assert(pow10(7) * pow10(2) == 1_000_000_000);
    } else if precision == 8 {
        assert(pow10(8) * pow10(1) == 1_000_000_000);
    } else {
        assert(pow10(9) * pow10(0) == 1_000_000_000);
    }
}

/// A magnitude without digits beyond its places is its whole part and its
/// shown fraction put together.
proof fn lemma_split(magnitude: nat, precision: nat)
    requires
        precision <= 9,
        magnitude % pow10((9 - precision) as nat) == 0,
    ensures
        (magnitude % pow10(9)) / pow10((9 - precision) as nat) < pow10(precision),
        magnitude == (magnitude / pow10(9)) * pow10(9) + ((magnitude % pow10(9)) / pow10(
            (9 - precision) as nat,
        )) * pow10((9 - precision) as nat),
{
    lemma_pow10_values();
    lemma_pow10_split(precision);
    let d = pow10((9 - precision) as nat) as int;
    let h = pow10(precision) as int;
    assert(d * h == 1_000_000_000);
    let rest = (magnitude % pow10(9)) as int;
    vstd::arithmetic::div_mod::lemma_mod_mod(magnitude as int, d, h);
    assert(rest % d == 0);
    vstd::arithmetic::div_mod::lemma_fundamental_div_mod(rest, d);
    vstd::arithmetic::div_mod::lemma_fundamental_div_mod(magnitude as int, 1_000_000_000);
    assert(rest / d < h) by (nonlinear_arith)
        requires
            rest == d * (rest / d),
            rest < d * h,
            d > 0,
    ;
}

/// Whole part and fraction put together leave no digit beyond the places.
proof fn lemma_join(units: nat, fraction: nat, precision: nat)
    requires
        precision <= 9,
    ensures
        (units * pow10(9) + fraction * pow10((9 - precision) as nat)) % pow10(
            (9 - precision) as nat,
        ) == 0,
{
    lemma_pow10_values();
    lemma_pow10_split(precision);
    let d = pow10((9 - precision) as nat) as int;
    let h = pow10(precision) as int;
    assert(d * h == 1_000_000_000);
    assert(units * 1_000_000_000 + fraction * d == (units * h + fraction) * d)
        by (nonlinear_arith)
        requires
            d * h == 1_000_000_000,
    ;
    vstd::arithmetic::div_mod::lemma_mod_multiples_basic(units * h + fraction, d);
}

/// The text of a canonical number reads back as that number.
proof fn lemma_scan_text(negative: bool, magnitude: nat, precision: nat)
    requires
        canonical(negative, magnitude, precision),
    ensures
        scan(fixed_text(negative, magnitude, precision)) == Some(
            (negative, magnitude, precision),
        ),
{
    lemma_pow10_values();
    let t = fixed_text(negative, magnitude, precision);
    let units = magnitude / pow10(9);
    let fraction = (magnitude % pow10(9)) / pow10((9 - precision) as nat);
    let whole = digits(units);
    let start: int = if negative {
        1
    } else {
        0
    };
    let whole_end = start + whole.len();
    lemma_split(magnitude, precision);
    lemma_digits(units);
    lemma_digits_len(units, 11);
    lemma_padded(fraction, precision);
    let shown = padded_digits(fraction, precision);
    assert forall|i: int| start <= i < whole_end implies is_digit(#[trigger] t[i]) by {
        assert(t[i] == whole[i - start]);
    }
    assert(t[0] == '-' <==> negative) by {
        if !negative {
            assert(t[0] == whole[0]);
        }
    }
    assert(t.subrange(start, whole_end) =~= whole);
    if precision == 0 {
        assert(t.len() == whole_end);
        lemma_digit_run(t, start, whole_end);
    } else {
        assert(t[whole_end] == '.');
        lemma_digit_run(t, start, whole_end);
        assert forall|i: int| whole_end + 1 <= i < t.len() implies is_digit(#[trigger] t[i]) by {
            assert(t[i] == shown[i - whole_end - 1]);
        }
        lemma_digit_run(t, whole_end + 1, t.len() as int);
        assert(t.subrange(whole_end + 1, t.len() as int) =~= shown);
    }
    assert(vstd::utf8::is_ascii_chars(t)) by {
        assert forall|i: int| 0 <= i < t.len() implies '\0' <= #[trigger] t[i] <= '\u{7f}' by {
            if i < start {
            } else if i < whole_end {
                assert(is_digit(t[i]));
            } else if i == whole_end {
            } else {
                assert(is_digit(t[i]));
            }
        }
    }
}

/// Two canonical numbers with the same text are the same number.
pub proof fn lemma_text_injective(
    negative: bool,
    magnitude: nat,
    precision: nat,
    other_negative: bool,
    other_magnitude: nat,
    other_precision: nat,
)
    requires
        canonical(negative, magnitude, precision),
        canonical(other_negative, other_magnitude, other_precision),
        fixed_text(negative, magnitude, precision) == fixed_text(
            other_negative,
            other_magnitude,
            other_precision,
        ),
    ensures
        negative == other_negative,
        magnitude == other_magnitude,
        precision == other_precision,
{
    lemma_scan_text(negative, magnitude, precision);
    lemma_scan_text(other_negative, other_magnitude, other_precision);
}

/// Reads a run of digits of `bytes` from `from` on: where it ends and, for a
/// run of at most `max_digits` digits, its value.
fn read_digits(bytes: &[u8], from: usize, max_digits: usize, Ghost(s): Ghost<Seq<char>>) -> (r: (
    usize,
    u64,
))
    requires
        vstd::utf8::is_ascii_chars(s),
        bytes@.len() == s.len(),
        forall|i: int| 0 <= i < s.len() ==> bytes@[i] == #[trigger] s[i] as u8,
        from <= s.len(),
        max_digits <= 18,
    ensures
        r.0 == digit_run(s, from as int),
        from <= r.0 <= s.len(),
        r.0 - from <= max_digits ==> r.1 == digits_value(s.subrange(from as int, r.0 as int))
            && r.1 < pow10((r.0 - from) as nat),
{
    let n: usize = bytes.len();
    let mut i: usize = from;
    let mut value: u64 = 0;
    proof {
        assert(s.subrange(from as int, from as int) =~= Seq::<char>::empty());
        lemma_pow10_values();
    }
    while i < n && bytes[i] >= 48 && bytes[i] <= 57
        invariant
            vstd::utf8::is_ascii_chars(s),
            n == s.len(),
            bytes@.len() == s.len(),
            forall|i: int| 0 <= i < s.len() ==> bytes@[i] == #[trigger] s[i] as u8,
            from <= i <= n,
            max_digits <= 18,
            digit_run(s, from as int) == digit_run(s, i as int),
            i - from <= max_digits ==> value == digits_value(s.subrange(from as int, i as int))
                && value < pow10((i - from) as nat),
        decreases n - i,
    {
        proof {
            assert(bytes@[i as int] == s[i as int] as u8);
            assert(is_digit(s[i as int]));
        }
        if i - from < max_digits {
            proof {
                lemma_pow10_monotonic((i - from) as nat, 17);
                lemma_pow10_values();
                reveal_with_fuel(pow10, 2);
                let next = s.subrange(from as int, i + 1);
                assert(next.drop_last() =~= s.subrange(from as int, i as int));
                assert(digit_value(next.last()) == bytes@[i as int] - 48);
                assert(pow10((i + 1 - from) as nat) == 10 * pow10((i - from) as nat));
                assert(pow10(18) == 10 * pow10(17));
            }
            value = value * 10 + (bytes[i] - 48) as u64;
        }
        i = i + 1;
    }
    proof {
        if i < n {
            assert(bytes@[i as int] == s[i as int] as u8);
            assert(!is_digit(s[i as int]));
        }
    }
    (i, value)
}

/// Reads `s` as a decimal number, leading zeros and a negative zero
/// accepted.
fn scan_text(s: &str) -> (r: Option<(bool, u128, u8)>)
    ensures
        match r {
            Some((negative, magnitude, precision)) => {
                &&& scan(s@) == Some((negative, magnitude as nat, precision as nat))
                &&& precision <= 9
                &&& (magnitude as nat) % pow10((9 - precision) as nat) == 0
            },
            None => scan(s@) is None,
        },
{
    if !s.is_ascii() {
        return None;
    }
    let bytes = s.as_bytes();
    let n: usize = bytes.len();
    proof {
        vstd::string::is_ascii_spec_bytes(s);
        lemma_pow10_values();
        assert forall|i: int| 0 <= i < s@.len() implies bytes@[i] == #[trigger] s@[i] as u8 by {}
    }
    let negative = n > 0 && bytes[0] == 45;
    proof {
        if n > 0 {
            assert(bytes@[0] == s@[0] as u8);
        }
    }
    let start: usize = if negative {
        1
    } else {
        0
    };
    let (whole_end, units) = read_digits(bytes, start, 11, Ghost(s@));
    if whole_end == start || whole_end - start > 11 {
        return None;
    }
    proof {
        lemma_pow10_monotonic((whole_end - start) as nat, 11);
    }
    if whole_end == n {
        proof {
            lemma_join(units as nat, 0, 0);
        }
        return Some((negative, units as u128 * 1_000_000_000, 0));
    }
    proof {
        assert(bytes@[whole_end as int] == s@[whole_end as int] as u8);
    }
    if bytes[whole_end] != 46 {
        return None;
    }
    let (end, fraction) = read_digits(bytes, whole_end + 1, 9, Ghost(s@));
    let places: usize = end - (whole_end + 1);
    if end != n || places == 0 || places > 9 {
        return None;
    }
    proof {
        lemma_pow10_monotonic(places as nat, 9);
        lemma_pow10_monotonic((9 - places) as nat, 9);
    }
    let precision: u8 = places as u8;
    let step: u64 = pow10_u64(9 - precision);
    proof {
        lemma_join(units as nat, fraction as nat, precision as nat);
    }
    assert(fraction as nat * step as nat <= 1_000_000_000 * 1_000_000_000) by (nonlinear_arith)
        requires
            fraction <= 1_000_000_000,
            step <= 1_000_000_000,
    ;
    Some((negative, units as u128 * 1_000_000_000 + fraction as u128 * step as u128, precision))
}

/// Reads the text of a decimal number: sign, magnitude in billionths and
/// number of places. Only the text of a canonical number is accepted, so
/// reading is the exact inverse of writing.
pub fn parse(s: &str) -> (r: Option<(bool, u64, u8)>)
    ensures
        match r {
            Some((negative, magnitude, precision)) => canonical(
                negative,
                magnitude as nat,
                precision as nat,
            ) && fixed_text(negative, magnitude as nat, precision as nat) == s@,
            None => forall|negative: bool, magnitude: nat, precision: nat|
                canonical(negative, magnitude, precision) ==> #[trigger] fixed_text(
                    negative,
                    magnitude,
                    precision,
                ) != s@,
        },
{
    let found = scan_text(s);
    proof {
        assert forall|negative: bool, magnitude: nat, precision: nat|
            canonical(negative, magnitude, precision) && #[trigger] fixed_text(
                negative,
                magnitude,
                precision,
            ) == s@ implies scan(s@) == Some((negative, magnitude, precision)) by {
            lemma_scan_text(negative, magnitude, precision);
        }
    }
    match found {
        None => None,
        Some((negative, wide, precision)) => {
            if wide > 0xffff_ffff_ffff_ffff || (negative && wide == 0) {
                return None;
            }
            let magnitude: u64 = wide as u64;
            let back = render(negative, magnitude, precision);
            if back == s.to_owned() {
                Some((negative, magnitude, precision))
            } else {
                None
            }
        },
    }
}

} // verus!
