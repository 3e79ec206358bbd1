//! Rendering a worked total for the screen: a span of `m` whole minutes
//! is shown as `{hours}h{minutes}m`, and a span that is not positive as
//! `0h0m`.

use vstd::prelude::*;
use vstd::string::*;

verus! {

/// The character for one decimal digit.
pub open spec fn digit_char(d: int) -> char {
    if d == 0 {
        '0'
    } else if d == 1 {
        '1'
    } else if d == 2 {
        '2'
    } else if d == 3 {
        '3'
    } else if d == 4 {
        '4'
    } else if d == 5 {
        '5'
    } else if d == 6 {
        '6'
    } else if d == 7 {
        '7'
    } else if d == 8 {
        '8'
    } else {
        '9'
    }
}

/// The decimal numeral of a natural number, most significant digit first.
pub open spec fn decimal_text(n: nat) -> Seq<char>
    decreases n,
{
    if n < 10 {
        seq![digit_char(n as int)]
    } else {
        decimal_text(n / 10).push(digit_char((n % 10) as int))
    }
}

/// How a total of `minutes` whole minutes is rendered: whole hours, `h`,
/// the left-over minutes, `m`; a total that is not positive renders as
/// if it were zero.
pub open spec fn duration_label(minutes: int) -> Seq<char> {
    let m = if minutes < 0 {
        0
    } else {
        minutes
    };
    decimal_text((m / 60) as nat) + seq!['h'] + decimal_text((m % 60) as nat) + seq!['m']
}

/// The one-character string of a decimal digit.
fn digit_string(d: u128) -> (s: String)
    requires
        d < 10,
    ensures
        s@ == seq![digit_char(d as int)],
{
    if d == 0 {
        let s = String::from_str("0");
        proof {
            reveal_strlit("0");
            assert(s@ =~= seq![digit_char(d as int)]);
        }
        s
    } else if d == 1 {
        let s = String::from_str("1");
        proof {
            reveal_strlit("1");
            assert(s@ =~= seq![digit_char(d as int)]);
        }
        s
    } else if d == 2 {
        let s = String::from_str("2");
        proof {
            reveal_strlit("2");
            assert(s@ =~= seq![digit_char(d as int)]);
        }
        s
    } else if d == 3 {
        let s = String::from_str("3");
        proof {
            reveal_strlit("3");
            assert(s@ =~= seq![digit_char(d as int)]);
        }
        s
    } else if d == 4 {
        let s = String::from_str("4");
        proof {
            reveal_strlit("4");
            assert(s@ =~= seq![digit_char(d as int)]);
        }
        s
    } else if d == 5 {
        let s = String::from_str("5");
        proof {
            reveal_strlit("5");
            assert(s@ =~= seq![digit_char(d as int)]);
        }
        s
    } else if d == 6 {
        let s = String::from_str("6");
        proof {
            reveal_strlit("6");
            assert(s@ =~= seq![digit_char(d as int)]);
        }
        s
    } else if d == 7 {
        let s = String::from_str("7");
        proof {
            reveal_strlit("7");
            assert(s@ =~= seq![digit_char(d as int)]);
        }
        s
    } else if d == 8 {
        let s = String::from_str("8");
        proof {
            reveal_strlit("8");
            assert(s@ =~= seq![digit_char(d as int)]);
        }
        s
    } else {
        let s = String::from_str("9");
        proof {
            reveal_strlit("9");
            assert(s@ =~= seq![digit_char(d as int)]);
        }
        s
    }
}

/// The decimal numeral of `n`.
pub fn decimal_string(n: u128) -> (s: String)
    ensures
        s@ == decimal_text(n as nat),
    decreases n,
{
    if n < 10 {
        digit_string(n)
    } else {
        let mut s = decimal_string(n / 10);
        let low = digit_string(n % 10);
        s.append(low.as_str());
        proof {
            assert(s@ =~= decimal_text(n as nat));
        }
        s
    }
}

/// How a record's possibly-missing total is shown: the rendered duration
/// when the day has one, and the in-progress wording when it has none.
pub open spec fn total_label_text(total: Option<int>) -> Seq<char> {
    match total {
        Some(m) => duration_label(m),
        None => "em andamento"@,
    }
}

/// Renders a record's total: `{hours}h{minutes}m` when it is there, and
/// `em andamento` for a day still in progress.
pub fn total_label(total: Option<i64>) -> (s: String)
    ensures
        s@ == total_label_text(
            match total {
                Some(m) => Some(m as int),
                None => None,
            },
        ),
{
    match total {
        Some(m) => format_duration(m as i128),
        None => String::from_str("em andamento"),
    }
}

/// Renders a total of whole minutes as `{hours}h{minutes}m`, exactly as
/// `duration_label` states it.
pub fn format_duration(minutes: i128) -> (s: String)
    ensures
        s@ == duration_label(minutes as int),
{
    let clamped: u128 = if minutes < 0 {
        0
    } else {
        minutes as u128
    };
    let mut s = decimal_string(clamped / 60);
    s.append("h");
    let rest = decimal_string(clamped % 60);
    s.append(rest.as_str());
    s.append("m");
    proof {
        reveal_strlit("h");
        reveal_strlit("m");
        assert(s@ =~= duration_label(minutes as int));
    }
    s
}

} // verus!
