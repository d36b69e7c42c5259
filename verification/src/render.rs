//! Text of an alert: the headline names the charge direction, the body the
//! charge rounded to a whole percent.

use vstd::prelude::*;

verus! {

/// The character for one decimal digit.
pub open spec fn digit_char(d: int) -> char {
    if d == 0 {
        '0'
    } else if d == 1 {
        '1'
    } else if d == 2 {
        '2'
    } else if d == 3 {
        '3'
    } else if d == 4 {
        '4'
    } else if d == 5 {
        '5'
    } else if d == 6 {
        '6'
    } else if d == 7 {
        '7'
    } else if d == 8 {
        '8'
    } else {
        '9'
    }
}

/// The decimal numeral of a non-negative integer, most significant digit
/// first, without leading zeros.
pub open spec fn dec_seq(n: int) -> Seq<char>
    decreases n,
{
    if n < 10 {
        seq![digit_char(n)]
    } else {
        dec_seq(n / 10).push(digit_char(n % 10))
    }
}

/// The headline of an alert: the battery's charge direction.
pub open spec fn summary_seq(charging: bool) -> Seq<char> {
    "Battery Status: "@ + (if charging {
        "Charging"@
    } else {
        "Discharging"@
    })
}

/// The body of an alert: the charge as a whole percentage.
pub open spec fn body_seq(percent: int) -> Seq<char> {
    "Charge: "@ + dec_seq(percent) + "%"@
}

/// The one-character numeral of a single decimal digit.
fn digit_str(d: u8) -> (r: &'static str)
    requires
        d < 10,
    ensures
        r@ == seq![digit_char(d as int)],
{
    proof {
        reveal_strlit("0");
        reveal_strlit("1");
        reveal_strlit("2");
        reveal_strlit("3");
        reveal_strlit("4");
        reveal_strlit("5");
        reveal_strlit("6");
        reveal_strlit("7");
        reveal_strlit("8");
        reveal_strlit("9");
    }
    let r: &'static str = if d == 0 {
        "0"
    } else if d == 1 {
        "1"
    } else if d == 2 {
        "2"
    } else if d == 3 {
        "3"
    } else if d == 4 {
        "4"
    } else if d == 5 {
        "5"
    } else if d == 6 {
        "6"
    } else if d == 7 {
        "7"
    } else if d == 8 {
        "8"
    } else {
        "9"
    };
    proof {
        assert(r@ =~= seq![digit_char(d as int)]);
    }
    r
}

/// The decimal numeral of a percentage between 0 and 100.
pub fn dec_str(n: u8) -> (r: String)
    requires
        n <= 100,
    ensures
        r@ == dec_seq(n as int),
{
    if n >= 100 {
        proof {
            reveal_strlit("100");
            assert(dec_seq(1) =~= seq![digit_char(1)]);
            assert(dec_seq(10) =~= seq![digit_char(1), digit_char(0)]);
            assert(dec_seq(100) =~= seq![digit_char(1), digit_char(0), digit_char(0)]);
            assert("100"@ =~= dec_seq(100));
        }
        String::from_str("100")
    } else if n >= 10 {
        let r = String::from_str(digit_str(n / 10)).concat(digit_str(n % 10));
        proof {
            assert(dec_seq((n / 10) as int) =~= seq![digit_char((n / 10) as int)]);
            assert(r@ =~= dec_seq(n as int));
        }
        r
    } else {
        String::from_str(digit_str(n))
    }
}

/// Renders the headline of an alert.
pub fn render_summary(charging: bool) -> (r: String)
    ensures
        r@ == summary_seq(charging),
{
    let head = String::from_str("Battery Status: ");
    if charging {
        head.concat("Charging")
    } else {
        head.concat("Discharging")
    }
}

/// Renders the body of an alert.
pub fn render_body(percent: u8) -> (r: String)
    requires
        percent <= 100,
    ensures
        r@ == body_seq(percent as int),
{
    let digits = dec_str(percent);
    let r = String::from_str("Charge: ").concat(digits.as_str()).concat("%");
    proof {
        assert(r@ =~= body_seq(percent as int));
    }
    r
}

} // verus!
