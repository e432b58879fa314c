//! The address asked of the delaying test server.

use vstd::prelude::*;

verus! {

/// The character of the decimal digit `d`.
pub open spec fn digit_char(d: nat) -> char
    recommends
        d < 10,
{
    (d + 48) as char
}

/// The decimal writing of `n`, most significant digit first, with no
/// leading zeros.
pub open spec fn decimal(n: nat) -> Seq<char>
    decreases n,
{
    if n < 10 {
        seq![digit_char(n)]
    } else {
        decimal(n / 10).push(digit_char(n % 10))
    }
}

/// The address of the server's endpoint that answers after a delay.
pub open spec fn delay_prefix() -> Seq<char> {
    "https://httpbin.org/delay/"@
}

/// Appends the digit `d` to `s`.
fn append_digit(s: &mut String, d: u64)
    requires
        d < 10,
    ensures
        final(s)@ == old(s)@.push(digit_char(d as nat)),
{
    proof {
        reveal_strlit("0");
        reveal_strlit("1");
        reveal_strlit("2");
        reveal_strlit("3");
        reveal_strlit("4");
        reveal_strlit("5");
        reveal_strlit("6");
        reveal_strlit("7");
        reveal_strlit("8");
        reveal_strlit("9");
    }
    if d == 0 {
        s.append("0");
    } else if d == 1 {
        s.append("1");
    } else if d == 2 {
        s.append("2");
    } else if d == 3 {
        s.append("3");
    } else if d == 4 {
        s.append("4");
    } else if d == 5 {
        s.append("5");
    } else if d == 6 {
        s.append("6");
    } else if d == 7 {
        s.append("7");
    } else if d == 8 {
        s.append("8");
    } else {
        s.append("9");
    }
}

/// Appends the decimal writing of `n` to `s`.
pub fn append_decimal(s: &mut String, n: u64)
    ensures
        final(s)@ == old(s)@ + decimal(n as nat),
    decreases n,
{
    if n >= 10 {
        append_decimal(s, n / 10);
    }
    append_digit(s, n % 10);
    proof {
        if n < 10 {
            assert(n % 10 == n);
        }
    }
}

/// The address that answers after `seconds` seconds.
pub fn delay_url(seconds: u64) -> (r: String)
    ensures
        r@ == delay_prefix() + decimal(seconds as nat),
{
    let mut url = "https://httpbin.org/delay/".to_owned();
    append_decimal(&mut url, seconds);
    url
}

/// The value of the decimal digit character `c`.
pub open spec fn digit_value(c: char) -> int {
    c as int - '0' as int
}

/// Whether `c` is one of the characters '0' to '9'.
pub open spec fn is_digit(c: char) -> bool {
    '0' <= c <= '9'
}

/// The number that the digit characters `s` denote, read most significant
/// first: each digit's value times its power of ten, summed.
pub open spec fn decimal_value(s: Seq<char>) -> int
    decreases s.len(),
{
    if s.len() == 0 {
        0
    } else {
        decimal_value(s.drop_last()) * 10 + digit_value(s.last())
    }
}

/// The digits written for `n` read back as `n`: every character is a
/// decimal digit, there is at least one, the first is not '0' unless `n` is
/// zero (then the writing is the single digit '0'), and the value they
/// denote is `n`.
pub proof fn law_decimal_reads_back(n: nat)
    ensures
        decimal(n).len() >= 1,
        forall|i: int| 0 <= i < decimal(n).len() ==> is_digit(#[trigger] decimal(n)[i]),
        decimal(n)[0] == '0' ==> n == 0 && decimal(n).len() == 1,
        decimal_value(decimal(n)) == n,
    decreases n,
{
    if n < 10 {
        assert(decimal(n).drop_last() =~= Seq::<char>::empty());
        assert('0' as int == 48);
        assert(digit_value(digit_char(n)) == n);
        assert(decimal_value(decimal(n).drop_last()) == 0);
        assert(decimal_value(decimal(n)) == decimal_value(decimal(n).drop_last()) * 10
            + digit_value(decimal(n).last()));
    } else {
        let q = n / 10;
        let r = n % 10;
        law_decimal_reads_back(q);
        assert(decimal(n).drop_last() =~= decimal(q));
        assert(q * 10 + r == n) by (nonlinear_arith)
            requires
                q == n / 10,
                r == n % 10,
        ;
        assert(q >= 1);
        assert('0' as int == 48);
        assert(digit_value(digit_char(r)) == r);
        assert(decimal(n).last() == digit_char(r));
        assert(decimal_value(decimal(n)) == decimal_value(decimal(q)) * 10 + r);
        assert forall|i: int| 0 <= i < decimal(n).len() implies is_digit(#[trigger] decimal(n)[i]) by {
            if i < decimal(n).len() - 1 {
                assert(decimal(n)[i] == decimal(q)[i]);
            }
        }
        assert(decimal(n)[0] == decimal(q)[0]);
    }
}

/// The address for `seconds` is the server's delay endpoint followed by
/// digits that read back as `seconds`, with no leading zero.
pub proof fn law_delay_url_reads_back(seconds: u64, url: Seq<char>)
    requires
        url == delay_prefix() + decimal(seconds as nat),
    ensures
        url.take(delay_prefix().len() as int) == delay_prefix(),
        decimal_value(url.skip(delay_prefix().len() as int)) == seconds,
        url[delay_prefix().len() as int] == '0' ==> seconds == 0,
{
    law_decimal_reads_back(seconds as nat);
    assert(url.take(delay_prefix().len() as int) =~= delay_prefix());
    assert(url.skip(delay_prefix().len() as int) =~= decimal(seconds as nat));
}

} // verus!
