//! Decimal rendering of integers, as `Display` prints them.
use vstd::prelude::*;

verus! {

/// The character of a decimal digit.
pub open spec fn digit_char(d: nat) -> char
    recommends
        d < 10,
{
    if d == 0 {
        '0'
    } else if d == 1 {
        '1'
    } else if d == 2 {
        '2'
    } else if d == 3 {
        '3'
    } else if d == 4 {
        '4'
    } else if d == 5 {
        '5'
    } else if d == 6 {
        '6'
    } else if d == 7 {
        '7'
    } else if d == 8 {
        '8'
    } else {
        '9'
    }
}

/// The decimal digits of a natural number, most significant first,
/// with no leading zeros (zero itself is `"0"`).
pub open spec fn decimal_nat(n: nat) -> Seq<char>
    decreases n,
{
    if n < 10 {
        seq![digit_char(n)]
    } else {
        decimal_nat(n / 10).push(digit_char(n % 10))
    }
}

/// The decimal text of an integer: a minus sign before the digits of
/// its magnitude when it is negative.
pub open spec fn decimal_int(n: int) -> Seq<char> {
    if n < 0 {
        seq!['-'] + decimal_nat((-n) as nat)
    } else {
        decimal_nat(n as nat)
    }
}

/// The number that a string of decimal digits reads as.
pub open spec fn digits_value(s: Seq<char>) -> nat
    decreases s.len(),
{
    if s.len() == 0 {
        0
    } else {
        digits_value(s.drop_last()) * 10 + ((s.last() as int) - ('0' as int)) as nat
    }
}

proof fn lemma_digit_value(d: nat)
    requires
        d < 10,
    ensures
        (digit_char(d) as int) - ('0' as int) == d,
        '0' <= digit_char(d) <= '9',
{
    assert('1' as int == 49 && '5' as int == 53 && '9' as int == 57 && '0' as int == 48);
    assert('2' as int == 50 && '3' as int == 51 && '4' as int == 52);
    assert('6' as int == 54 && '7' as int == 55 && '8' as int == 56);
}

/// The rendering is faithful: it is made of digits only, has no leading
/// zero (unless the number is zero), and reads back as the number.
pub proof fn law_decimal_reads_back(n: nat)
    ensures
        decimal_nat(n).len() >= 1,
        forall|i: int| 0 <= i < decimal_nat(n).len() ==> '0' <= #[trigger] decimal_nat(n)[i] <= '9',
        n >= 10 ==> decimal_nat(n)[0] != '0',
        digits_value(decimal_nat(n)) == n,
    decreases n,
{
    if n >= 10 {
        law_decimal_reads_back(n / 10);
        let s = decimal_nat(n);
        assert(s.drop_last() =~= decimal_nat(n / 10));
        assert(s[0] == decimal_nat(n / 10)[0]);
        assert forall|i: int| 0 <= i < s.len() implies '0' <= #[trigger] s[i] <= '9' by {
            if i < s.len() - 1 {
                assert(s[i] == decimal_nat(n / 10)[i]);
            }
        }
        lemma_digit_value(n % 10);
        assert(s.last() == digit_char(n % 10));
        assert(digits_value(s) == digits_value(decimal_nat(n / 10)) * 10 + (n % 10));
        assert(n == (n / 10) * 10 + n % 10);
    } else {
        lemma_digit_value(n);
        let s = decimal_nat(n);
        assert(s.last() == digit_char(n));
        assert(digits_value(s) == digits_value(s.drop_last()) * 10 + n);
        assert(decimal_nat(n).drop_last() =~= Seq::<char>::empty());
    }
}

/// The text of a negative number is a minus sign before the text of its
/// magnitude; that of any other number has no sign. Either way the digits
/// read back as the magnitude.
pub proof fn law_decimal_int_reads_back(n: int)
    ensures
        n < 0 ==> decimal_int(n)[0] == '-' && decimal_int(n).subrange(1, decimal_int(n).len() as int)
            == decimal_nat((-n) as nat) && digits_value(
            decimal_int(n).subrange(1, decimal_int(n).len() as int),
        ) == -n,
        n >= 0 ==> digits_value(decimal_int(n)) == n && '0' <= decimal_int(n)[0] <= '9',
{
    if n < 0 {
        law_decimal_reads_back((-n) as nat);
        assert(decimal_int(n).subrange(1, decimal_int(n).len() as int) =~= decimal_nat((-n) as nat));
    } else {
        law_decimal_reads_back(n as nat);
    }
}

fn digit_str(d: u64) -> (s: &'static str)
    requires
        d < 10,
    ensures
        s@ == seq![digit_char(d as nat)],
{
    proof {
        reveal_strlit("0");
        reveal_strlit("1");
        reveal_strlit("2");
        reveal_strlit("3");
        reveal_strlit("4");
        reveal_strlit("5");
        reveal_strlit("6");
        reveal_strlit("7");
        reveal_strlit("8");
        reveal_strlit("9");
    }
    if d == 0 {
        "0"
    } else if d == 1 {
        "1"
    } else if d == 2 {
        "2"
    } else if d == 3 {
        "3"
    } else if d == 4 {
        "4"
    } else if d == 5 {
        "5"
    } else if d == 6 {
        "6"
    } else if d == 7 {
        "7"
    } else if d == 8 {
        "8"
    } else {
        "9"
    }
}

/// Appends the decimal digits of `n` to `s`.
pub fn push_decimal_u64(s: &mut String, n: u64)
    ensures
        final(s)@ == old(s)@ + decimal_nat(n as nat),
    decreases n,
{
    if n >= 10 {
        push_decimal_u64(s, n / 10);
        s.append(digit_str(n % 10));
        assert(decimal_nat(n as nat) == decimal_nat((n / 10) as nat).push(
            digit_char((n % 10) as nat),
        ));
    } else {
        s.append(digit_str(n));
    }
}

/// Appends the decimal text of `n` (with a leading `-` when negative) to `s`.
pub fn push_decimal_i64(s: &mut String, n: i64)
    ensures
        final(s)@ == old(s)@ + decimal_int(n as int),
{
    if n < 0 {
        s.append("-");
        let magnitude: u64 = ((-(n + 1)) as u64) + 1;
        push_decimal_u64(s, magnitude);
        proof {
            reveal_strlit("-");
        }
    } else {
        push_decimal_u64(s, n as u64);
    }
}

/// The decimal text of `n`, as `n.to_string()` gives it.
pub fn decimal_string(n: i64) -> (s: String)
    ensures
        s@ == decimal_int(n as int),
{
    let mut s = String::new();
    push_decimal_i64(&mut s, n);
    s
}

} // verus!
