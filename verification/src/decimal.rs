use vstd::prelude::*;
use vstd::string::StringExecFns;

verus! {

/// The decimal digit character for a value below ten.
pub open spec fn spec_digit_char(d: nat) -> char {
    if d == 0 {
        '0'
    } else if d == 1 {
        '1'
    } else if d == 2 {
        '2'
    } else if d == 3 {
        '3'
    } else if d == 4 {
        '4'
    } else if d == 5 {
        '5'
    } else if d == 6 {
        '6'
    } else if d == 7 {
        '7'
    } else if d == 8 {
        '8'
    } else {
        '9'
    }
}

/// The decimal digits of a nonnegative number, most significant first,
/// with no leading zero except for the number zero itself.
pub open spec fn spec_udecimal(n: nat) -> Seq<char>
    decreases n,
{
    if n < 10 {
        seq![spec_digit_char(n)]
    } else {
        spec_udecimal(n / 10).push(spec_digit_char(n % 10))
    }
}

/// The decimal notation of an integer: its digits, preceded by a minus
/// sign when it is negative.
pub open spec fn spec_decimal(n: int) -> Seq<char> {
    if n < 0 {
        seq!['-'] + spec_udecimal((-n) as nat)
    } else {
        spec_udecimal(n as nat)
    }
}

/// Append the digit character for a value below ten.
fn push_digit_char(s: &mut String, d: u64)
    requires
        d < 10,
    ensures
        final(s)@ == old(s)@.push(spec_digit_char(d as nat)),
{
    proof {
        reveal_strlit("0");
        reveal_strlit("1");
        reveal_strlit("2");
        reveal_strlit("3");
        reveal_strlit("4");
        reveal_strlit("5");
        reveal_strlit("6");
        reveal_strlit("7");
        reveal_strlit("8");
        reveal_strlit("9");
    }
    match d {
        0 => s.append("0"),
        1 => s.append("1"),
        2 => s.append("2"),
        3 => s.append("3"),
        4 => s.append("4"),
        5 => s.append("5"),
        6 => s.append("6"),
        7 => s.append("7"),
        8 => s.append("8"),
        _ => s.append("9"),
    }
    proof {
        assert(final(s)@ =~= old(s)@.push(spec_digit_char(d as nat)));
    }
}

/// Append the decimal digits of `n`, most significant first.
fn push_udecimal(s: &mut String, n: u64)
    ensures
        final(s)@ == old(s)@ + spec_udecimal(n as nat),
    decreases n,
{
    if n < 10 {
        push_digit_char(s, n);
        proof {
            assert(old(s)@.push(spec_digit_char(n as nat)) =~= old(s)@ + spec_udecimal(n as nat));
        }
    } else {
        push_udecimal(s, n / 10);
        push_digit_char(s, n % 10);
        proof {
            assert((old(s)@ + spec_udecimal(n as nat / 10)).push(spec_digit_char(n as nat % 10))
                =~= old(s)@ + spec_udecimal(n as nat));
        }
    }
}

/// The decimal notation of a nonnegative number.
pub fn u64_to_decimal(n: u64) -> (s: String)
    ensures
        s@ == spec_udecimal(n as nat),
{
    let mut s = String::new();
    push_udecimal(&mut s, n);
    proof {
        assert(Seq::<char>::empty() + spec_udecimal(n as nat) =~= spec_udecimal(n as nat));
    }
    s
}

/// The decimal notation of an integer, with a minus sign when negative.
pub fn i64_to_decimal(n: i64) -> (s: String)
    ensures
        s@ == spec_decimal(n as int),
{
    if n >= 0 {
        u64_to_decimal(n as u64)
    } else {
        let mut s = String::new();
        proof {
            reveal_strlit("-");
        }
        s.append("-");
        let magnitude: u64 = if n == i64::MIN {
            9223372036854775808u64
        } else {
            (-n) as u64
        };
        push_udecimal(&mut s, magnitude);
        proof {
            assert(s@ =~= spec_decimal(n as int));
        }
        s
    }
}

} // verus!
