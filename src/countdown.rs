//! The text of the countdown: whole minutes and leftover seconds, in
//! decimal, with no padding.
use crate::clock::{Remaining, NANOS_PER_SEC};
use vstd::prelude::*;

verus! {

/// The decimal digit for `d < 10`.
pub open spec fn digit_char(d: nat) -> char {
    if d == 0 {
        '0'
    } else if d == 1 {
        '1'
    } else if d == 2 {
        '2'
    } else if d == 3 {
        '3'
    } else if d == 4 {
        '4'
    } else if d == 5 {
        '5'
    } else if d == 6 {
        '6'
    } else if d == 7 {
        '7'
    } else if d == 8 {
        '8'
    } else {
        '9'
    }
}

/// `n` written in decimal, without leading zeros.
pub open spec fn decimal(n: nat) -> Seq<char>
    decreases n,
{
    if n < 10 {
        seq![digit_char(n)]
    } else {
        decimal(n / 10) + seq![digit_char(n % 10)]
    }
}

/// `i` written in decimal, with a minus sign where it is negative.
pub open spec fn int_text(i: int) -> Seq<char> {
    if i < 0 {
        seq!['-'] + decimal((-i) as nat)
    } else {
        decimal(i as nat)
    }
}

/// `a / b` rounded toward zero, for `b > 0`.
pub open spec fn div_toward_zero(a: int, b: int) -> int {
    if a >= 0 {
        a / b
    } else {
        -((-a) / b)
    }
}

/// The whole seconds in `nanos`, rounded toward zero.
pub open spec fn whole_seconds(nanos: int) -> int {
    div_toward_zero(nanos, NANOS_PER_SEC as int)
}

/// Whole minutes in `secs`, rounded toward zero.
pub open spec fn minutes_of(secs: int) -> int {
    div_toward_zero(secs, 60)
}

/// What is left of `secs` once its whole minutes are taken out.
pub open spec fn seconds_of(secs: int) -> int {
    secs - minutes_of(secs) * 60
}

/// The countdown for `secs` whole seconds: minutes, a colon, seconds.
pub open spec fn countdown_text(secs: int) -> Seq<char> {
    int_text(minutes_of(secs)) + seq![':'] + int_text(seconds_of(secs))
}

fn digit_str(d: u128) -> (r: &'static str)
    requires
        d < 10,
    ensures
        r@ == seq![digit_char(d as nat)],
{
    proof {
        reveal_strlit("0");
        reveal_strlit("1");
        reveal_strlit("2");
        reveal_strlit("3");
        reveal_strlit("4");
        reveal_strlit("5");
        reveal_strlit("6");
        reveal_strlit("7");
        reveal_strlit("8");
        reveal_strlit("9");
    }
    if d == 0 {
        "0"
    } else if d == 1 {
        "1"
    } else if d == 2 {
        "2"
    } else if d == 3 {
        "3"
    } else if d == 4 {
        "4"
    } else if d == 5 {
        "5"
    } else if d == 6 {
        "6"
    } else if d == 7 {
        "7"
    } else if d == 8 {
        "8"
    } else {
        "9"
    }
}

/// Appends `n` in decimal to `s`.
pub fn push_decimal(s: &mut String, n: u128)
    ensures
        final(s)@ == old(s)@ + decimal(n as nat),
    decreases n,
{
    if n >= 10 {
        push_decimal(s, n / 10);
    }
    s.append(digit_str(n % 10));
    assert(final(s)@ =~= old(s)@ + decimal(n as nat));
}

/// Appends the number of magnitude `n`, negative where `negative` holds,
/// to `s`.
fn push_signed(s: &mut String, negative: bool, n: u128)
    ensures
        final(s)@ == old(s)@ + int_text(if negative { -(n as int) } else { n as int }),
{
    proof {
        reveal_strlit("-");
    }
    if negative && n > 0 {
        s.append("-");
    }
    push_decimal(s, n);
    assert(final(s)@ =~= old(s)@ + int_text(if negative { -(n as int) } else { n as int }));
}

impl Remaining {
    /// The countdown shown for this span: its whole seconds, rounded toward
    /// zero, split into minutes and seconds (`187.9 s` shows as `3:7`).
    pub fn countdown(&self) -> (r: String)
        ensures
            r@ == countdown_text(whole_seconds(self.value())),
    {
        let secs = self.nanos / NANOS_PER_SEC;
        let mins = secs / 60;
        let rest = secs % 60;
        let mut s = String::new();
        push_signed(&mut s, self.overdue, mins);
        proof {
            reveal_strlit(":");
        }
        s.append(":");
        push_signed(&mut s, self.overdue, rest);
        proof {
            let t = whole_seconds(self.value());
            if self.overdue {
                assert(t == -(secs as int));
                assert(minutes_of(t) == -(mins as int));
                assert(seconds_of(t) == -(rest as int));
            } else {
                assert(t == secs as int);
                assert(minutes_of(t) == mins as int);
                assert(seconds_of(t) == rest as int);
            }
        }
        assert(s@ =~= countdown_text(whole_seconds(self.value())));
        s
    }
}

} // verus!
