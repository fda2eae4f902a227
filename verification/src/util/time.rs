use vstd::prelude::*;

verus! {

/// The largest number of whole seconds that a `chrono::Duration` can be built from.
pub const MAX_DURATION_SECONDS: i64 = 9_223_372_036_854_775;

/// Integer division rounded toward zero, as Rust's `/` on signed integers computes it.
pub open spec fn trunc_div(a: int, b: int) -> int {
    if a >= 0 {
        a / b
    } else {
        -((-a) / b)
    }
}

/// The decimal digit character for `d` (`0 <= d < 10`).
pub open spec fn digit_char(d: int) -> char {
    if d == 0 {
        '0'
    } else if d == 1 {
        '1'
    } else if d == 2 {
        '2'
    } else if d == 3 {
        '3'
    } else if d == 4 {
        '4'
    } else if d == 5 {
        '5'
    } else if d == 6 {
        '6'
    } else if d == 7 {
        '7'
    } else if d == 8 {
        '8'
    } else {
        '9'
    }
}

/// The decimal digits of a natural number, most significant first, without leading zeros.
pub open spec fn decimal_digits(n: nat) -> Seq<char>
    decreases n,
{
    if n < 10 {
        seq![digit_char(n as int)]
    } else {
        decimal_digits(n / 10).push(digit_char((n % 10) as int))
    }
}

/// How `{}` writes an integer: an optional minus sign, then its decimal digits.
pub open spec fn decimal(n: int) -> Seq<char> {
    if n < 0 {
        seq!['-'] + decimal_digits((-n) as nat)
    } else {
        decimal_digits(n as nat)
    }
}

/// `s` right-aligned in a field of `width` characters filled with `'0'` on the left.
pub open spec fn left_pad_zeros(s: Seq<char>, width: nat) -> Seq<char> {
    if s.len() < width {
        Seq::new((width - s.len()) as nat, |i: int| '0') + s
    } else {
        s
    }
}

/// How `{:0>2}` writes an integer.
pub open spec fn two_wide(n: int) -> Seq<char> {
    left_pad_zeros(decimal(n), 2)
}

/// Whole hours in a duration of `s` seconds.
pub open spec fn hours_part(s: int) -> int {
    trunc_div(s, 3600)
}

/// Whole minutes in a duration of `s` seconds, less the minutes of the whole hours.
pub open spec fn minutes_part(s: int) -> int {
    trunc_div(s, 60) - hours_part(s) * 60
}

/// What is left of `s` seconds once the minutes of `minutes_part` are taken away
/// (the minutes of the whole hours are not taken away).
pub open spec fn seconds_part(s: int) -> int {
    s - minutes_part(s) * 60
}

/// The clock text of a duration of `s` seconds: `MM:SS`, behind `HH:` when there is
/// at least one whole hour.
pub open spec fn time_text(s: int) -> Seq<char> {
    let mm_ss = two_wide(minutes_part(s)) + seq![':'] + two_wide(seconds_part(s));
    if hours_part(s) != 0 {
        two_wide(hours_part(s)) + seq![':'] + mm_ss
    } else {
        mm_ss
    }
}

/// Builds a `chrono::Duration` of `seconds` seconds (`chrono::Duration::seconds`) and reads
/// back `num_hours`, `num_minutes` and `num_seconds`. chrono's source: the constructor
/// panics outside `±MAX_DURATION_SECONDS`; a duration built from whole seconds keeps its
/// seconds, and hours and minutes are that count divided by 3600 and 60 with `/` on `i64`.
#[verifier::external_body]
fn duration_whole_units(seconds: i64) -> (units: (i64, i64, i64))
    requires
        -MAX_DURATION_SECONDS <= seconds <= MAX_DURATION_SECONDS,
    ensures
        units.0 == trunc_div(seconds as int, 3600),
        units.1 == trunc_div(seconds as int, 60),
        units.2 == seconds,
{
    let duration = chrono::Duration::seconds(seconds);
    (duration.num_hours(), duration.num_minutes(), duration.num_seconds())
}

fn digit_str(d: u64) -> (s: &'static str)
    requires
        d < 10,
    ensures
        s@ == seq![digit_char(d as int)],
{
    if d == 0 {
        proof { reveal_strlit("0"); }
        "0"
    } else if d == 1 {
        proof { reveal_strlit("1"); }
        "1"
    } else if d == 2 {
        proof { reveal_strlit("2"); }
        "2"
    } else if d == 3 {
        proof { reveal_strlit("3"); }
        "3"
    } else if d == 4 {
        proof { reveal_strlit("4"); }
        "4"
    } else if d == 5 {
        proof { reveal_strlit("5"); }
        "5"
    } else if d == 6 {
        proof { reveal_strlit("6"); }
        "6"
    } else if d == 7 {
        proof { reveal_strlit("7"); }
        "7"
    } else if d == 8 {
        proof { reveal_strlit("8"); }
        "8"
    } else {
        proof { reveal_strlit("9"); }
        "9"
    }
}

fn push_decimal_digits(out: &mut String, n: u64)
    ensures
        final(out)@ == old(out)@ + decimal_digits(n as nat),
    decreases n,
{
    if n >= 10 {
        push_decimal_digits(out, n / 10);
    }
    out.append(digit_str(n % 10));
    proof {
        if n >= 10 {
            assert(decimal_digits(n as nat) == decimal_digits((n / 10) as nat).push(
                digit_char((n % 10) as int),
            ));
        }
    }
}

proof fn lemma_decimal_digits_len(n: nat)
    ensures
        decimal_digits(n).len() >= 1,
        decimal_digits(n).len() == 1 <==> n < 10,
    decreases n,
{
    if n >= 10 {
        lemma_decimal_digits_len(n / 10);
    }
}

/// Appends `n` as `{}` writes it.
fn push_decimal(out: &mut String, n: i64)
    ensures
        final(out)@ == old(out)@ + decimal(n as int),
{
    if n < 0 {
        proof { reveal_strlit("-"); }
        out.append("-");
        let magnitude: u64 = (-(n as i128)) as u64;
        push_decimal_digits(out, magnitude);
    } else {
        push_decimal_digits(out, n as u64);
    }
}

/// Appends `n` as `{:0>2}` writes it.
fn push_two_wide(out: &mut String, n: i64)
    ensures
        final(out)@ == old(out)@ + two_wide(n as int),
{
    proof {
        if n < 0 {
            lemma_decimal_digits_len((-n) as nat);
        } else {
            lemma_decimal_digits_len(n as nat);
        }
    }
    if 0 <= n && n < 10 {
        proof { reveal_strlit("0"); }
        out.append("0");
        assert(Seq::new(1, |i: int| '0') =~= "0"@);
    }
    push_decimal(out, n);
}

/// Formats a number of seconds as a clock text, `MM:SS` or `HH:MM:SS`.
pub fn seconds_to_time_string(seconds: i64) -> (text: String)
    requires
        -MAX_DURATION_SECONDS <= seconds <= MAX_DURATION_SECONDS,
    ensures
        text@ == time_text(seconds as int),
{
    let units = duration_whole_units(seconds);
    let hours = units.0;
    assert(-2_562_047_788_016 <= hours <= 2_562_047_788_016);
    assert(-153_722_867_280_913 <= units.1 <= 153_722_867_280_913);
    let minutes = units.1 - hours * 60;
    assert(-60 < minutes < 60);
    let rest = units.2 - minutes * 60;
    let mut text = String::new();
    if hours != 0 {
        push_two_wide(&mut text, hours);
        proof { reveal_strlit(":"); }
        text.append(":");
    }
    push_two_wide(&mut text, minutes);
    proof { reveal_strlit(":"); }
    text.append(":");
    push_two_wide(&mut text, rest);
    text
}

/// Law: a duration under an hour is written `MM:SS`, minutes and seconds of the minute.
pub proof fn law_time_text_under_an_hour(s: int)
    requires
        0 <= s < 3600,
    ensures
        time_text(s) == two_wide(s / 60) + seq![':'] + two_wide(s % 60),
{
}

/// Law: an integer from 0 to 9 is written with a leading zero, one from 10 to 99 with its
/// two digits.
pub proof fn law_two_wide_pads_single_digits(n: int)
    requires
        0 <= n < 100,
    ensures
        n < 10 ==> two_wide(n) == seq!['0', digit_char(n)],
        n >= 10 ==> two_wide(n) == seq![digit_char(n / 10), digit_char(n % 10)],
{
    reveal_with_fuel(decimal_digits, 2);
    if n < 10 {
        assert(two_wide(n) =~= seq!['0', digit_char(n)]);
    } else {
        assert(decimal_digits((n / 10) as nat) == seq![digit_char(n / 10)]);
        assert(two_wide(n) =~= seq![digit_char(n / 10), digit_char(n % 10)]);
    }
}

} // verus!
