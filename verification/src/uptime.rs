use vstd::prelude::*;
use vstd::string::StringExecFns;

verus! {

/// The decimal digit character for a value below ten.
pub open spec fn dec_digit(d: nat) -> char {
    if d == 0 {
        '0'
    } else if d == 1 {
        '1'
    } else if d == 2 {
        '2'
    } else if d == 3 {
        '3'
    } else if d == 4 {
        '4'
    } else if d == 5 {
        '5'
    } else if d == 6 {
        '6'
    } else if d == 7 {
        '7'
    } else if d == 8 {
        '8'
    } else {
        '9'
    }
}

/// The decimal numeral of a natural number, without sign or leading
/// zeros.
pub open spec fn dec_str(n: nat) -> Seq<char>
    decreases n,
{
    if n < 10 {
        seq![dec_digit(n)]
    } else {
        dec_str(n / 10) + seq![dec_digit(n % 10)]
    }
}

pub proof fn lemma_dec_str_nonempty(n: nat)
    ensures
        dec_str(n).len() > 0,
    decreases n,
{
    if n >= 10 {
        lemma_dec_str_nonempty(n / 10);
    }
}

fn digit_str(d: u64) -> (r: &'static str)
    requires
        d < 10,
    ensures
        r@ == seq![dec_digit(d as nat)],
{
    if d == 0 {
        proof {
            reveal_strlit("0");
            assert("0"@ =~= seq![dec_digit(0)]);
        }
        "0"
    } else if d == 1 {
        proof {
            reveal_strlit("1");
            assert("1"@ =~= seq![dec_digit(1)]);
        }
        "1"
    } else if d == 2 {
        proof {
            reveal_strlit("2");
            assert("2"@ =~= seq![dec_digit(2)]);
        }
        "2"
    } else if d == 3 {
        proof {
            reveal_strlit("3");
            assert("3"@ =~= seq![dec_digit(3)]);
        }
        "3"
    } else if d == 4 {
        proof {
            reveal_strlit("4");
            assert("4"@ =~= seq![dec_digit(4)]);
        }
        "4"
    } else if d == 5 {
        proof {
            reveal_strlit("5");
            assert("5"@ =~= seq![dec_digit(5)]);
        }
        "5"
    } else if d == 6 {
        proof {
            reveal_strlit("6");
            assert("6"@ =~= seq![dec_digit(6)]);
        }
        "6"
    } else if d == 7 {
        proof {
            reveal_strlit("7");
            assert("7"@ =~= seq![dec_digit(7)]);
        }
        "7"
    } else if d == 8 {
        proof {
            reveal_strlit("8");
            assert("8"@ =~= seq![dec_digit(8)]);
        }
        "8"
    } else {
        proof {
            reveal_strlit("9");
            assert("9"@ =~= seq![dec_digit(9)]);
        }
        "9"
    }
}

/// A number written out in decimal.
pub fn dec_string(n: u64) -> (r: String)
    ensures
        r@ == dec_str(n as nat),
    decreases n,
{
    if n < 10 {
        let mut s = String::new();
        s.append(digit_str(n));
        proof {
            assert(s@ =~= dec_str(n as nat));
        }
        s
    } else {
        let mut s = dec_string(n / 10);
        s.append(digit_str(n % 10));
        proof {
            assert(s@ =~= dec_str(n as nat));
        }
        s
    }
}

pub open spec fn uptime_days(seconds: nat) -> nat {
    seconds / 86400
}

pub open spec fn uptime_hours(seconds: nat) -> nat {
    (seconds / 3600) % 24
}

pub open spec fn uptime_minutes(seconds: nat) -> nat {
    (seconds / 60) % 60
}

/// One component of the uptime text: the count followed by its unit,
/// singular or plural, or nothing when the count is zero.
pub open spec fn unit_part(n: nat, singular: Seq<char>, plural: Seq<char>) -> Seq<char> {
    if n == 0 {
        Seq::empty()
    } else if n == 1 {
        dec_str(n) + singular
    } else {
        dec_str(n) + plural
    }
}

/// Two pieces of text joined by a comma, the separator appearing only
/// between two non-empty pieces.
pub open spec fn sep_join(a: Seq<char>, b: Seq<char>) -> Seq<char> {
    if a.len() == 0 {
        b
    } else if b.len() == 0 {
        a
    } else {
        a + ", "@ + b
    }
}

/// The whole uptime text: days, hours and minutes, zero counts skipped,
/// the remaining parts comma-separated.
pub open spec fn uptime_text(seconds: nat) -> Seq<char> {
    sep_join(
        sep_join(
            unit_part(uptime_days(seconds), " day"@, " days"@),
            unit_part(uptime_hours(seconds), " hour"@, " hours"@),
        ),
        unit_part(uptime_minutes(seconds), " minute"@, " minutes"@),
    )
}

/// An uptime in seconds written out in days, hours and minutes. Below one
/// minute every component is zero and there is nothing to write, so such
/// inputs are ruled out.
pub fn convert_seconds(seconds: &u64) -> (r: String)
    requires
        *seconds >= 60,
    ensures
        r@ == uptime_text(*seconds as nat),
{
    let s = *seconds;
    let days: u64 = s / 86400;
    let hours: u64 = (s / 3600) % 24;
    let minutes: u64 = (s / 60) % 60;

    let mut text = String::new();

    if days > 0 {
        text.append(dec_string(days).as_str());
        if days == 1 {
            text.append(" day");
        } else {
            text.append(" days");
        }
    }

    if hours > 0 {
        if days > 0 {
            text.append(", ");
        }
        text.append(dec_string(hours).as_str());
        if hours == 1 {
            text.append(" hour");
        } else {
            text.append(" hours");
        }
    }

    if minutes > 0 {
        if days > 0 || hours > 0 {
            text.append(", ");
        }
        text.append(dec_string(minutes).as_str());
        if minutes == 1 {
            text.append(" minute");
        } else {
            text.append(" minutes");
        }
    }

    proof {
        lemma_dec_str_nonempty(days as nat);
        lemma_dec_str_nonempty(hours as nat);
        lemma_dec_str_nonempty(minutes as nat);
        assert(text@ =~= uptime_text(s as nat));
    }
    text
}

} // verus!
