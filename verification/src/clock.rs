use chrono::Timelike;
use vstd::prelude::*;
use vstd::string::StringExecFns;

verus! {

/// The character of one decimal digit.
pub open spec fn digit_char(d: int) -> char {
    if d == 0 {
        '0'
    } else if d == 1 {
        '1'
    } else if d == 2 {
        '2'
    } else if d == 3 {
        '3'
    } else if d == 4 {
        '4'
    } else if d == 5 {
        '5'
    } else if d == 6 {
        '6'
    } else if d == 7 {
        '7'
    } else if d == 8 {
        '8'
    } else {
        '9'
    }
}

/// The eight characters `HH:MM:SS` of one wall-clock time, two digits per
/// part.
pub open spec fn hms_chars(h: int, m: int, s: int) -> Seq<char> {
    seq![
        digit_char(h / 10),
        digit_char(h % 10),
        ':',
        digit_char(m / 10),
        digit_char(m % 10),
        ':',
        digit_char(s / 10),
        digit_char(s % 10),
    ]
}

/// Whether `s` is the `HH:MM:SS` display of some valid wall-clock time.
pub open spec fn is_clock_display(s: Seq<char>) -> bool {
    exists|h: int, m: int, sec: int|
        0 <= h < 24 && 0 <= m < 60 && 0 <= sec < 60 && s == #[trigger] hms_chars(h, m, sec)
}

/// Relies on chrono 0.4 (`Local::now` and `Timelike`): `hour` is 0 to 23,
/// `minute` and `second` 0 to 59. Which time comes back is nondeterministic.
#[verifier::external_body]
fn now_hms() -> (r: (u8, u8, u8))
    ensures
        r.0 < 24,
        r.1 < 60,
        r.2 < 60,
{
    let now = chrono::Local::now();
    (now.hour() as u8, now.minute() as u8, now.second() as u8)
}

/// One decimal digit as a one-character string slice.
fn digit_str(d: u8) -> (r: &'static str)
    requires
        d < 10,
    ensures
        r@ == seq![digit_char(d as int)],
{
    proof {
        reveal_strlit("0");
        reveal_strlit("1");
        reveal_strlit("2");
        reveal_strlit("3");
        reveal_strlit("4");
        reveal_strlit("5");
        reveal_strlit("6");
        reveal_strlit("7");
        reveal_strlit("8");
        reveal_strlit("9");
    }
    match d {
        0 => "0",
        1 => "1",
        2 => "2",
        3 => "3",
        4 => "4",
        5 => "5",
        6 => "6",
        7 => "7",
        8 => "8",
        _ => "9",
    }
}

/// The `HH:MM:SS` display of one wall-clock time.
pub fn format_hms(h: u8, m: u8, s: u8) -> (r: String)
    requires
        h < 24,
        m < 60,
        s < 60,
    ensures
        r@ == hms_chars(h as int, m as int, s as int),
{
    proof {
        reveal_strlit(":");
    }
    let mut out = String::new();
    out.append(digit_str(h / 10));
    out.append(digit_str(h % 10));
    out.append(":");
    out.append(digit_str(m / 10));
    out.append(digit_str(m % 10));
    out.append(":");
    out.append(digit_str(s / 10));
    out.append(digit_str(s % 10));
    out
}

/// The current local time as `HH:MM:SS`.
pub fn timestamp() -> (r: String)
    ensures
        is_clock_display(r@),
{
    let (h, m, s) = now_hms();
    let out = format_hms(h, m, s);
    proof {
        assert(out@ == hms_chars(h as int, m as int, s as int));
    }
    out
}

} // verus!
