use vstd::prelude::*;

verus! {

/// The character for one decimal digit value.
pub open spec fn digit_char(d: nat) -> char {
    if d == 0 {
        '0'
    } else if d == 1 {
        '1'
    } else if d == 2 {
        '2'
    } else if d == 3 {
        '3'
    } else if d == 4 {
        '4'
    } else if d == 5 {
        '5'
    } else if d == 6 {
        '6'
    } else if d == 7 {
        '7'
    } else if d == 8 {
        '8'
    } else {
        '9'
    }
}

/// Base-ten rendering of a non-negative integer, most significant digit first.
pub open spec fn spec_udecimal(n: nat) -> Seq<char>
    decreases n,
{
    if n < 10 {
        seq![digit_char(n)]
    } else {
        spec_udecimal(n / 10) + seq![digit_char(n % 10)]
    }
}

/// Base-ten rendering of a signed integer, with a leading '-' when negative.
pub open spec fn spec_i32_decimal(n: int) -> Seq<char> {
    if n < 0 {
        seq!['-'] + spec_udecimal((-n) as nat)
    } else {
        spec_udecimal(n as nat)
    }
}

/// Appends the character for one decimal digit value.
fn append_digit(s: &mut String, d: u32)
    requires
        d < 10,
    ensures
        final(s)@ == old(s)@ + seq![digit_char(d as nat)],
{
    proof {
        reveal_strlit("0");
        reveal_strlit("1");
        reveal_strlit("2");
        reveal_strlit("3");
        reveal_strlit("4");
        reveal_strlit("5");
        reveal_strlit("6");
        reveal_strlit("7");
        reveal_strlit("8");
        reveal_strlit("9");
    }
    if d == 0 {
        s.append("0");
    } else if d == 1 {
        s.append("1");
    } else if d == 2 {
        s.append("2");
    } else if d == 3 {
        s.append("3");
    } else if d == 4 {
        s.append("4");
    } else if d == 5 {
        s.append("5");
    } else if d == 6 {
        s.append("6");
    } else if d == 7 {
        s.append("7");
    } else if d == 8 {
        s.append("8");
    } else {
        s.append("9");
    }
    assert(final(s)@ =~= old(s)@ + seq![digit_char(d as nat)]);
}

/// Appends the base-ten digits of `n`, most significant first.
fn push_decimal_digits(s: &mut String, n: u32)
    ensures
        final(s)@ == old(s)@ + spec_udecimal(n as nat),
    decreases n,
{
    if n < 10 {
        append_digit(s, n);
    } else {
        push_decimal_digits(s, n / 10);
        append_digit(s, n % 10);
        assert(final(s)@ =~= old(s)@ + spec_udecimal(n as nat));
    }
}

/// The usual base-ten rendering of a signed integer, with a leading '-' for
/// negative values and no other characters.
pub(crate) fn decimal_string(n: i32) -> (r: String)
    ensures
        r@ == spec_i32_decimal(n as int),
{
    let mut s = String::new();
    if n < 0 {
        proof {
            reveal_strlit("-");
        }
        s.append("-");
        let mag: u32 = (-(n as i64)) as u32;
        push_decimal_digits(&mut s, mag);
        assert(s@ =~= spec_i32_decimal(n as int));
    } else {
        push_decimal_digits(&mut s, n as u32);
        assert(s@ =~= spec_i32_decimal(n as int));
    }
    s
}

} // verus!
