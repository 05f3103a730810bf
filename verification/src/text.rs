//! Decimal rendering of integers, as `Display` writes them.

use vstd::prelude::*;

verus! {

/// The decimal digit for `d`, for `0 <= d < 10`.
pub open spec fn digit_char(d: int) -> char {
    if d == 0 { '0' }
    else if d == 1 { '1' }
    else if d == 2 { '2' }
    else if d == 3 { '3' }
    else if d == 4 { '4' }
    else if d == 5 { '5' }
    else if d == 6 { '6' }
    else if d == 7 { '7' }
    else if d == 8 { '8' }
    else { '9' }
}

/// The decimal digits of `n`, most significant first, without leading zeros.
pub open spec fn nat_decimal(n: nat) -> Seq<char>
    decreases n,
{
    if n < 10 {
        seq![digit_char(n as int)]
    } else {
        nat_decimal(n / 10).push(digit_char((n % 10) as int))
    }
}

/// The decimal text of `n`, with a leading `-` when it is negative.
pub open spec fn int_decimal(n: int) -> Seq<char> {
    if n < 0 {
        seq!['-'] + nat_decimal((-n) as nat)
    } else {
        nat_decimal(n as nat)
    }
}

/// Whether every character of `s` is a decimal digit `0`..`9`.
pub open spec fn all_digits(s: Seq<char>) -> bool {
    forall|i: int| 0 <= i < s.len() ==> '0' <= #[trigger] s[i] <= '9'
}

/// The number that the decimal digits `s` denote, most significant first.
pub open spec fn decimal_value(s: Seq<char>) -> int
    decreases s.len(),
{
    if s.len() == 0 {
        0
    } else {
        decimal_value(s.drop_last()) * 10 + (s.last() as int - '0' as int)
    }
}

/// The character of digit `d` is the one `d` places after `0`.
pub proof fn law_digit_char(d: int)
    requires
        0 <= d < 10,
    ensures
        digit_char(d) as int == '0' as int + d,
{
}

/// The decimal text of `n` is made of digits, has no leading zero, and
/// reads back as `n`.
pub proof fn law_decimal_reads_back(n: nat)
    ensures
        all_digits(nat_decimal(n)),
        decimal_value(nat_decimal(n)) == n,
        nat_decimal(n).len() >= 1,
        nat_decimal(n).len() > 1 ==> nat_decimal(n)[0] != '0',
    decreases n,
{
    law_digit_char((n % 10) as int);
    let s = nat_decimal(n);
    if n < 10 {
        assert(s.drop_last() =~= Seq::<char>::empty());
        assert(decimal_value(s.drop_last()) == 0);
    } else {
        law_decimal_reads_back(n / 10);
        assert(s.drop_last() =~= nat_decimal(n / 10));
        assert(n == (n / 10) * 10 + n % 10);
        assert(decimal_value(s) == decimal_value(nat_decimal(n / 10)) * 10 + (n % 10));
        assert forall|i: int| 0 <= i < s.len() implies '0' <= #[trigger] s[i] <= '9' by {
            if i < s.len() - 1 {
                assert(s[i] == nat_decimal(n / 10)[i]);
            }
        }
        assert(s[0] == nat_decimal(n / 10)[0]);
        if n / 10 < 10 {
            law_digit_char((n / 10) as int);
        } else {
            law_decimal_reads_back(n / 100);
            assert(n / 10 / 10 == n / 100);
            assert(nat_decimal(n / 10).len() > 1);
        }
    }
}

fn digit_str(d: u64) -> (s: &'static str)
    requires
        d < 10,
    ensures
        s@ == seq![digit_char(d as int)],
{
    proof {
        reveal_strlit("0");
        reveal_strlit("1");
        reveal_strlit("2");
        reveal_strlit("3");
        reveal_strlit("4");
        reveal_strlit("5");
        reveal_strlit("6");
        reveal_strlit("7");
        reveal_strlit("8");
        reveal_strlit("9");
    }
    if d == 0 { "0" }
    else if d == 1 { "1" }
    else if d == 2 { "2" }
    else if d == 3 { "3" }
    else if d == 4 { "4" }
    else if d == 5 { "5" }
    else if d == 6 { "6" }
    else if d == 7 { "7" }
    else if d == 8 { "8" }
    else { "9" }
}

fn push_nat_decimal(n: u64, out: &mut String)
    ensures
        final(out)@ == old(out)@ + nat_decimal(n as nat),
    decreases n,
{
    if n < 10 {
        out.append(digit_str(n));
    } else {
        push_nat_decimal(n / 10, out);
        out.append(digit_str(n % 10));
        assert(nat_decimal(n as nat) == nat_decimal((n / 10) as nat).push(digit_char((n % 10) as int)));
    }
}

/// Renders `n` in decimal, as `n.to_string()` does.
pub fn i32_to_decimal(n: i32) -> (s: String)
    ensures
        s@ == int_decimal(n as int),
        n >= 0 ==> all_digits(s@) && decimal_value(s@) == n,
        n < 0 ==> s@[0] == '-' && all_digits(s@.drop_first()) && decimal_value(s@.drop_first()) == -n,
{
    proof {
        if n >= 0 {
            law_decimal_reads_back(n as nat);
        } else {
            law_decimal_reads_back((-n) as nat);
            assert((seq!['-'] + nat_decimal((-n) as nat)).drop_first() =~= nat_decimal((-n) as nat));
        }
    }
    let mut out = String::new();
    if n < 0 {
        out.append("-");
        proof { reveal_strlit("-"); }
        let m: i64 = -(n as i64);
        push_nat_decimal(m as u64, &mut out);
    } else {
        push_nat_decimal(n as u64, &mut out);
    }
    out
}

} // verus!
