//! Entity names for the editor's hierarchy: the extra balls are numbered.

use vstd::prelude::*;
use vstd::string::*;
use crate::game::Match;

verus! {

/// The character for decimal digit `d`.
pub open spec fn digit_char(d: int) -> char {
    if d == 0 {
        '0'
    } else if d == 1 {
        '1'
    } else if d == 2 {
        '2'
    } else if d == 3 {
        '3'
    } else if d == 4 {
        '4'
    } else if d == 5 {
        '5'
    } else if d == 6 {
        '6'
    } else if d == 7 {
        '7'
    } else if d == 8 {
        '8'
    } else {
        '9'
    }
}

/// `n` written in decimal, most significant digit first, with no leading zeros.
pub open spec fn decimal_spec(n: nat) -> Seq<char>
    decreases n,
{
    if n < 10 {
        seq![digit_char(n as int)]
    } else {
        decimal_spec(n / 10) + seq![digit_char((n % 10) as int)]
    }
}

/// The one-character text of digit `d`.
fn digit_text(d: u64) -> (text: &'static str)
    requires
        d < 10,
    ensures
        text@ == seq![digit_char(d as int)],
{
    proof {
        reveal_strlit("0");
        reveal_strlit("1");
        reveal_strlit("2");
        reveal_strlit("3");
        reveal_strlit("4");
        reveal_strlit("5");
        reveal_strlit("6");
        reveal_strlit("7");
        reveal_strlit("8");
        reveal_strlit("9");
    }
    let text = match d {
        0 => "0",
        1 => "1",
        2 => "2",
        3 => "3",
        4 => "4",
        5 => "5",
        6 => "6",
        7 => "7",
        8 => "8",
        _ => "9",
    };
    assert(text@ =~= seq![digit_char(d as int)]);
    text
}

/// `n` written in decimal.
pub fn decimal(n: u64) -> (text: String)
    ensures
        text@ == decimal_spec(n as nat),
    decreases n,
{
    if n < 10 {
        String::from_str(digit_text(n))
    } else {
        decimal(n / 10).concat(digit_text(n % 10))
    }
}

impl Match {
    /// Editor-hierarchy name for the next extra ball: "Ball 2", "Ball 3", and so on,
    /// the primary being the first.
    pub fn next_extra_ball_name(&self) -> (name: String)
        requires
            self.balls.extras@.len() + 2 <= u64::MAX,
        ensures
            name@ == "Ball "@ + decimal_spec((self.balls.extras@.len() + 2) as nat),
    {
        let count = self.balls.extras.len() as u64 + 2;
        String::from_str("Ball ").concat(decimal(count).as_str())
    }
}

} // verus!
