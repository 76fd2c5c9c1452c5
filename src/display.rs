use vstd::prelude::*;
use crate::game::GameState;

verus! {

pub open spec fn digit(d: nat) -> char {
    seq!['0', '1', '2', '3', '4', '5', '6', '7', '8', '9'][d as int]
}

/// The decimal digits of `n`, most significant first, without leading zeros.
pub open spec fn digits(n: nat) -> Seq<char>
    decreases n,
{
    if n < 10 {
        seq![digit(n)]
    } else {
        digits(n / 10).push(digit(n % 10))
    }
}

/// `n` written in decimal, with a leading `-` when negative.
pub open spec fn decimal(n: int) -> Seq<char> {
    if n < 0 {
        seq!['-'] + digits((-n) as nat)
    } else {
        digits(n as nat)
    }
}

/// The score line: the left score, a spaced dash, the right score.
pub open spec fn score_line(left: int, right: int) -> Seq<char> {
    decimal(left) + seq![' ', '-', ' '] + decimal(right)
}

/// Relies on `std::format!` with `"{} - {}"`: each `i32` is written in decimal,
/// with a `-` when negative and no padding.
#[verifier::external_body]
fn format_scores(left: i32, right: i32) -> (r: String)
    ensures
        r@ == score_line(left as int, right as int),
{
    format!("{} - {}", left, right)
}

impl GameState {
    /// The text shown at the top of the screen, such as `3 - 12`.
    pub fn score_text(&self) -> (r: String)
        ensures
            r@ == score_line(self.score_1 as int, self.score_2 as int),
    {
        format_scores(self.score_1, self.score_2)
    }

    /// The x coordinate at which a text `text_width` pixels wide is centred on the screen.
    pub fn text_left(&self, text_width: u32) -> (r: i64)
        ensures
            r == self.screen.w / 2 - text_width / 2,
    {
        (self.screen.w / 2) as i64 - (text_width / 2) as i64
    }
}

} // verus!
