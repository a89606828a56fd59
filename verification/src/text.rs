//! Decimal text of unsigned numbers, as labels and device paths use it.

use vstd::prelude::*;

verus! {

/// The character of a decimal digit.
pub open spec fn digit_char(d: int) -> char {
    (48 + d) as char
}

/// The shortest decimal notation of `n`.
pub open spec fn decimal(n: nat) -> Seq<char>
    decreases n,
{
    if n < 10 {
        seq![digit_char(n as int)]
    } else {
        decimal(n / 10).push(digit_char((n % 10) as int))
    }
}

/// The number that a sequence of decimal digits stands for.
pub open spec fn decimal_value(s: Seq<char>) -> int
    decreases s.len(),
{
    if s.len() == 0 {
        0
    } else {
        10 * decimal_value(s.drop_last()) + (s.last() as int - 48)
    }
}

fn digit_text(d: u32) -> (s: &'static str)
    requires
        d < 10,
    ensures
        s@ == seq![digit_char(d as int)],
{
    proof {
        reveal_strlit("0");
        reveal_strlit("1");
        reveal_strlit("2");
        reveal_strlit("3");
        reveal_strlit("4");
        reveal_strlit("5");
        reveal_strlit("6");
        reveal_strlit("7");
        reveal_strlit("8");
        reveal_strlit("9");
    }
    if d == 0 {
        "0"
    } else if d == 1 {
        "1"
    } else if d == 2 {
        "2"
    } else if d == 3 {
        "3"
    } else if d == 4 {
        "4"
    } else if d == 5 {
        "5"
    } else if d == 6 {
        "6"
    } else if d == 7 {
        "7"
    } else if d == 8 {
        "8"
    } else {
        "9"
    }
}

/// The decimal notation of `n`, without leading zeros.
pub fn decimal_text(n: u32) -> (s: String)
    ensures
        s@ == decimal(n as nat),
    decreases n,
{
    if n < 10 {
        digit_text(n).to_string()
    } else {
        let mut s = decimal_text(n / 10);
        s.append(digit_text(n % 10));
        proof {
            assert(decimal(n as nat) =~= decimal((n / 10) as nat) + seq![
                digit_char((n % 10) as int),
            ]);
        }
        s
    }
}

/// Reading a number's decimal notation gives the number back.
pub proof fn decimal_reads_back(n: nat)
    ensures
        decimal_value(decimal(n)) == n,
    decreases n,
{
    if n < 10 {
        assert(decimal(n).drop_last() =~= Seq::<char>::empty());
        assert(decimal(n).last() == digit_char(n as int));
        assert(decimal_value(decimal(n).drop_last()) == 0);
    } else {
        decimal_reads_back(n / 10);
        assert(decimal(n).drop_last() =~= decimal(n / 10));
        assert(decimal(n).last() == digit_char((n % 10) as int));
    }
}

/// Different numbers have different notations.
pub proof fn decimal_is_injective(a: nat, b: nat)
    requires
        decimal(a) == decimal(b),
    ensures
        a == b,
{
    decimal_reads_back(a);
    decimal_reads_back(b);
}

proof fn digit_chars_are_digits(d: int)
    requires
        0 <= d < 10,
    ensures
        digit_char(d) as int == '0' as int + d,
        d != 0 ==> digit_char(d) != '0',
{
}

/// A notation is made of digits, its last digit is the number's remainder by ten, and only the
/// number 0 begins with a zero.
pub proof fn decimal_is_made_of_digits(n: nat, i: int)
    requires
        0 <= i < decimal(n).len(),
    ensures
        '0' as int <= decimal(n)[i] as int <= '9' as int,
        decimal(n).last() as int - '0' as int == n % 10,
        decimal(n)[0] == '0' ==> n == 0 && decimal(n).len() == 1,
        n < 10 ==> decimal(n).len() == 1,
    decreases n,
{
    if n < 10 {
        digit_chars_are_digits(n as int);
    } else {
        digit_chars_are_digits((n % 10) as int);
        assert(decimal(n / 10).len() > 0);
        decimal_is_made_of_digits(n / 10, 0);
        assert(decimal(n)[0] == decimal(n / 10)[0]);
        if i < decimal(n / 10).len() {
            decimal_is_made_of_digits(n / 10, i);
            assert(decimal(n)[i] == decimal(n / 10)[i]);
        }
    }
}

/// One digit more is ten times the number and the digit.
pub proof fn decimal_grows_by_a_digit(n: nat, d: nat)
    requires
        n > 0,
        d < 10,
    ensures
        decimal(n * 10 + d).len() == decimal(n).len() + 1,
        decimal(n * 10 + d).drop_last() == decimal(n),
        decimal(n * 10 + d).last() as int == '0' as int + d,
{
    let m = n * 10 + d;
    assert(m / 10 == n && m % 10 == d);
    digit_chars_are_digits(d as int);
    assert(decimal(m).drop_last() =~= decimal(n));
}

} // verus!
