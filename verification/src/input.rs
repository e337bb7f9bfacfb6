use vstd::prelude::*;
use vstd::string::StrSliceExecFns;

verus! {

pub open spec fn is_dec_digit(c: char) -> bool {
    48 <= c as u32 && c as u32 <= 57
}

pub open spec fn digit_val(c: char) -> nat {
    (c as u32 - 48) as nat
}

/// The value of a string of decimal digits, most significant first.
pub open spec fn dec_value(s: Seq<char>) -> nat
    decreases s.len(),
{
    if s.len() == 0 {
        0
    } else {
        dec_value(s.drop_last()) * 10 + digit_val(s.last())
    }
}

/// The digits of a numeral: everything after an optional leading plus
/// sign.
pub open spec fn numeral_body(s: Seq<char>) -> Seq<char> {
    if s.len() > 0 && s[0] == '+' {
        s.skip(1)
    } else {
        s
    }
}

/// Text that an unsigned integer parse accepts: an optional plus sign,
/// then one or more decimal digits.
pub open spec fn is_numeral(s: Seq<char>) -> bool {
    &&& numeral_body(s).len() > 0
    &&& forall|i: int| 0 <= i < numeral_body(s).len() ==> is_dec_digit(numeral_body(s)[i])
}

pub open spec fn numeral_value(s: Seq<char>) -> nat {
    dec_value(numeral_body(s))
}

/// Turn one line of player input into a flat board index. The text must
/// be a numeral naming a cell 1 through 9, as shown to the player; the
/// result is the matching 0-based index. Anything else — text that is not
/// a number, or a number outside 1..=9 — is rejected, and rejection is the
/// only other outcome.
pub fn parse_move_request(s: &str) -> (r: Option<usize>)
    ensures
        r is Some <==> is_numeral(s@) && 1 <= numeral_value(s@) <= 9,
        r is Some ==> r == Some((numeral_value(s@) - 1) as usize),
{
    let len = s.unicode_len();
    let start: usize = if len > 0 && s.get_char(0) == '+' {
        1
    } else {
        0
    };
    if start >= len {
        return None;
    }
    let ghost body = numeral_body(s@);
    proof {
        assert(body =~= s@.subrange(start as int, len as int));
    }

    let mut i: usize = start;
    // The running value, capped at 10: any numeral worth 10 or more names
    // no cell, so nothing above the cap needs to be distinguished.
    let mut value: u64 = 0;
    while i < len
        invariant
            start <= i <= len,
            len == s@.len(),
            body == numeral_body(s@),
            body == s@.subrange(start as int, len as int),
            forall|j: int| start <= j < i ==> is_dec_digit(s@[j]),
            value <= 10,
            value < 10 ==> value == dec_value(s@.subrange(start as int, i as int)),
            value == 10 ==> dec_value(s@.subrange(start as int, i as int)) >= 10,
        decreases len - i,
    {
        let c = s.get_char(i);
        let u = c as u32;
        if u < 48 || u > 57 {
            proof {
                assert(0 <= i - start < body.len());
                assert(body[i - start] == s@[i as int]);
                assert(!is_dec_digit(s@[i as int]));
                assert(numeral_body(s@)[i - start] == body[i - start]);
                assert(!is_numeral(s@));
            }
            return None;
        }
        let d = (u - 48) as u64;
        let ghost prefix = s@.subrange(start as int, i as int);
        let ghost extended = s@.subrange(start as int, i as int + 1);
        proof {
            assert(extended.drop_last() =~= prefix);
            assert(extended.last() == s@[i as int]);
            assert(dec_value(extended) == dec_value(prefix) * 10 + digit_val(s@[i as int]));
            if value == 10 {
                assert(dec_value(prefix) * 10 >= 100);
            }
        }
        if value < 10 {
            let w = value * 10 + d;
            if w >= 10 {
                value = 10;
            } else {
                value = w;
            }
        }
        i = i + 1;
    }
    proof {
        assert(s@.subrange(start as int, i as int) == body);
        assert(is_numeral(s@));
    }
    if 1 <= value && value <= 9 {
        Some((value - 1) as usize)
    } else {
        None
    }
}

} // verus!
