use vstd::prelude::*;

use crate::game::PongGame;

verus! {

/// The ASCII digit for `d`, which is below ten.
pub open spec fn digit(d: nat) -> u8 {
    (48 + d) as u8
}

/// The decimal numeral of `n` in ASCII, without leading zeros.
pub open spec fn decimal(n: nat) -> Seq<u8>
    decreases n,
{
    if n < 10 {
        seq![digit(n)]
    } else {
        decimal(n / 10).push(digit(n % 10))
    }
}

/// The ASCII text of a score line: the left score, " - ", the right score.
pub open spec fn score_line(left: nat, right: nat) -> Seq<u8> {
    decimal(left) + seq![32u8, 45u8, 32u8] + decimal(right)
}

/// Appends the decimal numeral of `n` to `out`.
fn push_decimal(out: &mut Vec<u8>, n: u32)
    ensures
        final(out)@ == old(out)@ + decimal(n as nat),
    decreases n,
{
    if n >= 10 {
        push_decimal(out, n / 10);
    }
    out.push(48 + (n % 10) as u8);
    proof {
        if n >= 10 {
            assert(old(out)@ + decimal((n / 10) as nat) + seq![digit((n % 10) as nat)]
                =~= old(out)@ + decimal(n as nat));
        } else {
            assert(old(out)@ + seq![digit(n as nat)] =~= old(out)@ + decimal(n as nat));
        }
    }
}

impl PongGame {
    /// The score line shown above the arena, as ASCII: "{left} - {right}".
    pub fn score_text(&self) -> (r: Vec<u8>)
        ensures
            r@ == score_line(self.score_left as nat, self.score_right as nat),
    {
        let mut out: Vec<u8> = Vec::new();
        push_decimal(&mut out, self.score_left);
        out.push(32);
        out.push(45);
        out.push(32);
        push_decimal(&mut out, self.score_right);
        assert(out@ =~= score_line(self.score_left as nat, self.score_right as nat));
        out
    }
}

} // verus!
