//! Run score: elapsed simulation time, rendered as `MM:SS`.

use vstd::prelude::*;
use vstd::string::StringExecFns;

verus! {

/// The decimal digit character for `d`.
pub open spec fn digit_char(d: int) -> char
    recommends
        0 <= d <= 9,
{
    if d == 0 {
        '0'
    } else if d == 1 {
        '1'
    } else if d == 2 {
        '2'
    } else if d == 3 {
        '3'
    } else if d == 4 {
        '4'
    } else if d == 5 {
        '5'
    } else if d == 6 {
        '6'
    } else if d == 7 {
        '7'
    } else if d == 8 {
        '8'
    } else {
        '9'
    }
}

/// Decimal digits of a nonnegative number, most significant first.
pub open spec fn dec_chars(n: int) -> Seq<char>
    decreases n,
{
    if n <= 9 {
        seq![digit_char(n)]
    } else {
        dec_chars(n / 10).push(digit_char(n % 10))
    }
}

/// Decimal digits padded on the left to at least two places.
pub open spec fn two_digit_chars(n: int) -> Seq<char>
    recommends
        n >= 0,
{
    if n <= 9 {
        seq!['0', digit_char(n)]
    } else {
        dec_chars(n)
    }
}

/// The `MM:SS` rendering of an elapsed time in milliseconds.
pub open spec fn mmss_s(elapsed_ms: int) -> Seq<char> {
    two_digit_chars(elapsed_ms / 1000 / 60) + seq![':'] + two_digit_chars(elapsed_ms / 1000 % 60)
}

/// The one-character string for a decimal digit.
fn digit_str(d: u64) -> (r: &'static str)
    requires
        d <= 9,
    ensures
        r@ == seq![digit_char(d as int)],
{
    let r: &'static str = if d == 0 {
        "0"
    } else if d == 1 {
        "1"
    } else if d == 2 {
        "2"
    } else if d == 3 {
        "3"
    } else if d == 4 {
        "4"
    } else if d == 5 {
        "5"
    } else if d == 6 {
        "6"
    } else if d == 7 {
        "7"
    } else if d == 8 {
        "8"
    } else {
        "9"
    };
    proof {
        reveal_strlit("0");
        reveal_strlit("1");
        reveal_strlit("2");
        reveal_strlit("3");
        reveal_strlit("4");
        reveal_strlit("5");
        reveal_strlit("6");
        reveal_strlit("7");
        reveal_strlit("8");
        reveal_strlit("9");
        assert(r@ =~= seq![digit_char(d as int)]);
    }
    r
}

/// Append the decimal digits of `n` to `s`.
fn push_decimal(s: &mut String, n: u64)
    ensures
        final(s)@ == old(s)@ + dec_chars(n as int),
    decreases n,
{
    if n <= 9 {
        let d: &'static str = digit_str(n);
        s.append(d);
        proof {
            assert(s@ =~= old(s)@ + dec_chars(n as int));
        }
    } else {
        push_decimal(s, n / 10);
        let d: &'static str = digit_str(n % 10);
        s.append(d);
        proof {
            assert(s@ =~= old(s)@ + dec_chars(n as int));
        }
    }
}

/// Append at least two decimal digits of `n` to `s`.
fn push_two_digit(s: &mut String, n: u64)
    ensures
        final(s)@ == old(s)@ + two_digit_chars(n as int),
{
    if n <= 9 {
        let z: &'static str = digit_str(0);
        s.append(z);
        let d: &'static str = digit_str(n);
        s.append(d);
        proof {
            assert(s@ =~= old(s)@ + two_digit_chars(n as int));
        }
    } else {
        push_decimal(s, n);
    }
}

/// Elapsed simulation time of the current run, in milliseconds; it only
/// grows while the run is in play.
#[derive(Clone, Copy, Debug, PartialEq, Eq, Structural)]
pub struct TimeScore {
    pub elapsed_ms: u64,
}

impl Default for TimeScore {
    /// A score of zero elapsed time.
    fn default() -> (r: TimeScore)
        ensures
            r.elapsed_ms == 0,
    {
        TimeScore { elapsed_ms: 0 }
    }
}

impl TimeScore {
    /// Account one frame's elapsed time (saturating at the largest
    /// representable time).
    pub fn tick(&mut self, delta_ms: u64)
        ensures
            final(self).elapsed_ms == if old(self).elapsed_ms + delta_ms <= u64::MAX {
                (old(self).elapsed_ms + delta_ms) as u64
            } else {
                u64::MAX
            },
    {
        if self.elapsed_ms <= u64::MAX - delta_ms {
            self.elapsed_ms = self.elapsed_ms + delta_ms;
        } else {
            self.elapsed_ms = u64::MAX;
        }
    }

    /// The score as minutes and seconds, `MM:SS`, with minutes growing past
    /// two places when the run lasts over 100 minutes.
    pub fn to_string(&self) -> (s: String)
        ensures
            s@ == mmss_s(self.elapsed_ms as int),
    {
        let secs: u64 = self.elapsed_ms / 1000;
        let minutes: u64 = secs / 60;
        let seconds: u64 = secs % 60;
        let mut s: String = String::from_str("");
        proof {
            reveal_strlit("");
        }
        push_two_digit(&mut s, minutes);
        s.append(":");
        proof {
            reveal_strlit(":");
        }
        push_two_digit(&mut s, seconds);
        proof {
            assert(s@ =~= mmss_s(self.elapsed_ms as int));
        }
        s
    }
}

} // verus!
