//! The text that answers a request.

use vstd::prelude::*;
use crate::rejection::MultipartError;
use crate::user::{NewUser, NewUserView};

verus! {

/// The character of the digit `d`, for `d` below ten.
pub open spec fn digit(d: nat) -> char {
    ('0' as int + d) as char
}

/// The decimal digits of `n`, the most significant first.
pub open spec fn digits(n: nat) -> Seq<char>
    decreases n,
{
    if n < 10 {
        seq![digit(n)]
    } else {
        digits(n / 10).push(digit(n % 10))
    }
}

/// `n` in decimal, with a leading `-` where it is negative.
pub open spec fn decimal(n: int) -> Seq<char> {
    if n < 0 {
        seq!['-'] + digits((-n) as nat)
    } else {
        digits(n as nat)
    }
}

/// The answer to a request, from what its validation gave: a greeting that
/// holds the age and the name, or the reason of the rejection.
pub open spec fn response(outcome: Result<NewUserView, Seq<char>>) -> Seq<char> {
    match outcome {
        Ok(value) => "Hello, "@ + decimal(value.user.age) + " year old named "@ + value.user.name
            + "!"@,
        Err(reason) => "Error: "@ + reason,
    }
}

fn digit_text(d: u64) -> (r: &'static str)
    requires
        d < 10,
    ensures
        r@ == seq![digit(d as nat)],
{
    proof {
        reveal_strlit("0");
        reveal_strlit("1");
        reveal_strlit("2");
        reveal_strlit("3");
        reveal_strlit("4");
        reveal_strlit("5");
        reveal_strlit("6");
        reveal_strlit("7");
        reveal_strlit("8");
        reveal_strlit("9");
    }
    let r = if d == 0 {
        "0"
    } else if d == 1 {
        "1"
    } else if d == 2 {
        "2"
    } else if d == 3 {
        "3"
    } else if d == 4 {
        "4"
    } else if d == 5 {
        "5"
    } else if d == 6 {
        "6"
    } else if d == 7 {
        "7"
    } else if d == 8 {
        "8"
    } else {
        "9"
    };
    assert(r@ =~= seq![digit(d as nat)]);
    r
}

fn digits_text(n: u64) -> (r: String)
    ensures
        r@ == digits(n as nat),
    decreases n,
{
    if n < 10 {
        String::from_str(digit_text(n))
    } else {
        let r = digits_text(n / 10).concat(digit_text(n % 10));
        assert(r@ =~= digits(n as nat));
        r
    }
}

/// `n` in decimal.
pub fn decimal_text(n: i32) -> (r: String)
    ensures
        r@ == decimal(n as int),
{
    let wide: i64 = n as i64;
    if wide < 0 {
        proof {
            reveal_strlit("-");
        }
        let r = String::from_str("-").concat(digits_text((-wide) as u64).as_str());
        assert(r@ =~= decimal(n as int));
        r
    } else {
        digits_text(wide as u64)
    }
}

/// The answer to a request.
pub fn response_text(outcome: &Result<NewUser, MultipartError>) -> (r: String)
    ensures
        r@ == response(
            match *outcome {
                Ok(value) => Ok(value@),
                Err(error) => Err(error.reason@),
            },
        ),
{
    match outcome {
        Ok(value) => String::from_str("Hello, ").concat(decimal_text(value.user.age).as_str()).concat(
            " year old named ",
        ).concat(value.user.name.as_str()).concat("!"),
        Err(error) => String::from_str("Error: ").concat(error.reason.as_str()),
    }
}

} // verus!
