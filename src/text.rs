use vstd::prelude::*;
use vstd::string::*;

verus! {

/// The character of a decimal digit.
pub open spec fn digit_char(d: nat) -> char {
    if d == 0 { '0' }
    else if d == 1 { '1' }
    else if d == 2 { '2' }
    else if d == 3 { '3' }
    else if d == 4 { '4' }
    else if d == 5 { '5' }
    else if d == 6 { '6' }
    else if d == 7 { '7' }
    else if d == 8 { '8' }
    else { '9' }
}

/// The decimal notation of `n`, without sign or leading zeros.
pub open spec fn decimal(n: nat) -> Seq<char>
    decreases n,
{
    if n < 10 {
        seq![digit_char(n)]
    } else {
        decimal(n / 10).push(digit_char(n % 10))
    }
}

/// `n` written with exactly two digits, zero-padded on the left.
pub open spec fn two_digits(n: nat) -> Seq<char> {
    seq![digit_char((n / 10) % 10), digit_char(n % 10)]
}

/// `n` written with exactly four digits, zero-padded on the left.
pub open spec fn four_digits(n: nat) -> Seq<char> {
    seq![
        digit_char((n / 1000) % 10),
        digit_char((n / 100) % 10),
        digit_char((n / 10) % 10),
        digit_char(n % 10),
    ]
}

fn digit_str(d: u64) -> (r: &'static str)
    requires
        d < 10,
    ensures
        r@ == seq![digit_char(d as nat)],
{
    proof {
        reveal_strlit("0");
        reveal_strlit("1");
        reveal_strlit("2");
        reveal_strlit("3");
        reveal_strlit("4");
        reveal_strlit("5");
        reveal_strlit("6");
        reveal_strlit("7");
        reveal_strlit("8");
        reveal_strlit("9");
    }
    if d == 0 {
        assert("0"@ =~= seq!['0']);
        "0"
    } else if d == 1 {
        assert("1"@ =~= seq!['1']);
        "1"
    } else if d == 2 {
        assert("2"@ =~= seq!['2']);
        "2"
    } else if d == 3 {
        assert("3"@ =~= seq!['3']);
        "3"
    } else if d == 4 {
        assert("4"@ =~= seq!['4']);
        "4"
    } else if d == 5 {
        assert("5"@ =~= seq!['5']);
        "5"
    } else if d == 6 {
        assert("6"@ =~= seq!['6']);
        "6"
    } else if d == 7 {
        assert("7"@ =~= seq!['7']);
        "7"
    } else if d == 8 {
        assert("8"@ =~= seq!['8']);
        "8"
    } else {
        assert("9"@ =~= seq!['9']);
        "9"
    }
}

/// Appends the decimal notation of `n` to `out`.
pub fn push_decimal(out: &mut String, n: u64)
    ensures
        final(out)@ == old(out)@ + decimal(n as nat),
    decreases n,
{
    if n < 10 {
        out.append(digit_str(n));
    } else {
        push_decimal(out, n / 10);
        out.append(digit_str(n % 10));
        assert(decimal(n as nat) == decimal((n / 10) as nat).push(digit_char((n % 10) as nat)));
        assert(out@ =~= old(out)@ + decimal(n as nat));
    }
}

} // verus!
