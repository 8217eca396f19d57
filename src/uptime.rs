use vstd::prelude::*;
use crate::status::{Markup, Status};
use crate::text::push_char;

verus! {

/// The character of a decimal digit.
pub open spec fn digit(d: nat) -> char {
    if d == 0 {
        '0'
    } else if d == 1 {
        '1'
    } else if d == 2 {
        '2'
    } else if d == 3 {
        '3'
    } else if d == 4 {
        '4'
    } else if d == 5 {
        '5'
    } else if d == 6 {
        '6'
    } else if d == 7 {
        '7'
    } else if d == 8 {
        '8'
    } else {
        '9'
    }
}

/// `n` written in decimal, without leading zeros.
pub open spec fn decimal(n: nat) -> Seq<char>
    decreases n,
{
    if n < 10 {
        seq![digit(n)]
    } else {
        decimal(n / 10).push(digit(n % 10))
    }
}

/// An uptime as whole hours and minutes, the hours left out when there are
/// none.
pub open spec fn uptime_text(sec: nat) -> Seq<char> {
    let hours = sec / 3600;
    let minutes = (sec % 3600) / 60;
    if hours != 0 {
        "UP "@ + decimal(hours) + "h"@ + decimal(minutes) + "m"@
    } else {
        "UP "@ + decimal(minutes) + "m"@
    }
}

fn digit_char(d: u64) -> (r: char)
    requires
        d < 10,
    ensures
        r == digit(d as nat),
{
    if d == 0 {
        '0'
    } else if d == 1 {
        '1'
    } else if d == 2 {
        '2'
    } else if d == 3 {
        '3'
    } else if d == 4 {
        '4'
    } else if d == 5 {
        '5'
    } else if d == 6 {
        '6'
    } else if d == 7 {
        '7'
    } else if d == 8 {
        '8'
    } else {
        '9'
    }
}

/// Appends `n` in decimal.
fn push_decimal(out: &mut String, n: u64)
    ensures
        final(out)@ == old(out)@ + decimal(n as nat),
    decreases n,
{
    if n >= 10 {
        push_decimal(out, n / 10);
    }
    push_char(out, digit_char(n % 10));
    proof {
        if n >= 10 {
            assert(old(out)@ + decimal(n as nat) =~= old(out)@ + decimal((n / 10) as nat) + seq![digit((n % 10) as nat)]);
        } else {
            assert(old(out)@ + decimal(n as nat) =~= old(out)@.push(digit(n as nat)));
        }
    }
}

/// An uptime in seconds as the status bar shows it.
pub fn repr_time(sec: u64) -> (r: String)
    ensures
        r@ == uptime_text(sec as nat),
{
    let hours = sec / 3600;
    let minutes = (sec % 3600) / 60;
    let mut out = String::from_str("UP ");
    if hours != 0 {
        push_decimal(&mut out, hours);
        out.append("h");
    }
    push_decimal(&mut out, minutes);
    out.append("m");
    out
}

/// The provider that shows how long the machine has been up.
pub struct UptimePlugin;

impl UptimePlugin {
    pub open spec fn name() -> Seq<char> {
        "uptime"@
    }

    /// The block for an uptime in whole seconds, if it could be read.
    pub fn get_status(&self, uptime_seconds: Option<u64>) -> (r: Option<Status>)
        ensures
            r is None <==> uptime_seconds is None,
            r matches Some(st) ==> {
                &&& st.name@ == Self::name()
                &&& st.markup == Markup::Plain
                &&& st.full_text@ == uptime_text(uptime_seconds->Some_0 as nat)
                &&& st.short_text@ == uptime_text(uptime_seconds->Some_0 as nat)
            },
    {
        match uptime_seconds {
            None => None,
            Some(sec) => {
                let text = repr_time(sec);
                let short = repr_time(sec);
                Some(Status { name: String::from_str("uptime"), full_text: text, short_text: short, markup: Markup::Plain })
            },
        }
    }
}

} // verus!
