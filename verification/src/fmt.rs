//! Rendering of the user-facing status lines, including a verified
//! decimal formatter for port numbers.

use vstd::prelude::*;
use crate::matcher::ContainerInfo;

verus! {

/// The character for one decimal digit.
pub open spec fn digit_char(d: int) -> char {
    if d == 0 {
        '0'
    } else if d == 1 {
        '1'
    } else if d == 2 {
        '2'
    } else if d == 3 {
        '3'
    } else if d == 4 {
        '4'
    } else if d == 5 {
        '5'
    } else if d == 6 {
        '6'
    } else if d == 7 {
        '7'
    } else if d == 8 {
        '8'
    } else {
        '9'
    }
}

/// The decimal rendering of a number, most significant digit first.
pub open spec fn dec_digits(n: nat) -> Seq<char>
    decreases n,
{
    if n < 10 {
        seq![digit_char(n as int)]
    } else {
        dec_digits(n / 10) + seq![digit_char((n % 10) as int)]
    }
}

/// One decimal digit as a string.
fn digit_str(d: u16) -> (s: &'static str)
    requires
        d < 10,
    ensures
        s@ == seq![digit_char(d as int)],
{
    proof {
        reveal_strlit("0");
        reveal_strlit("1");
        reveal_strlit("2");
        reveal_strlit("3");
        reveal_strlit("4");
        reveal_strlit("5");
        reveal_strlit("6");
        reveal_strlit("7");
        reveal_strlit("8");
        reveal_strlit("9");
    }
    match d {
        0 => "0",
        1 => "1",
        2 => "2",
        3 => "3",
        4 => "4",
        5 => "5",
        6 => "6",
        7 => "7",
        8 => "8",
        _ => "9",
    }
}

/// Renders a port number in decimal.
pub fn u16_to_dec(n: u16) -> (s: String)
    ensures
        s@ == dec_digits(n as nat),
    decreases n,
{
    if n < 10 {
        String::from_str(digit_str(n))
    } else {
        u16_to_dec(n / 10).concat(digit_str(n % 10))
    }
}

/// The status line reporting where the started instance is reachable.
pub fn url_message(port: u16) -> (r: String)
    ensures
        r@ == "running at http://localhost:"@ + dec_digits(port as nat) + "/explore"@,
{
    String::from_str("running at http://localhost:").concat(u16_to_dec(port).as_str()).concat(
        "/explore",
    )
}

/// The status line announcing a pull.
pub fn pull_message(image: &str) -> (r: String)
    ensures
        r@ == "pulling docker image "@ + image@ + "..."@,
{
    String::from_str("pulling docker image ").concat(image).concat("...")
}

/// The status line announcing one kill during a stop.
pub fn stop_message(c: &ContainerInfo) -> (r: String)
    ensures
        r@ == "stopping container "@ + c.image@ + " - "@ + c.id@ + "..."@,
{
    String::from_str("stopping container ").concat(c.image.as_str()).concat(" - ").concat(
        c.id.as_str(),
    ).concat("...")
}

} // verus!
