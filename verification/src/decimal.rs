//! Integers written in decimal, as `{}` writes them in the protocol's
//! messages (`Code=-32602`, `Message too large: 5000000000 bytes`).

use vstd::prelude::*;

verus! {

/// The character of a decimal digit.
pub open spec fn digit_char(d: nat) -> char {
    if d == 0 {
        '0'
    } else if d == 1 {
        '1'
    } else if d == 2 {
        '2'
    } else if d == 3 {
        '3'
    } else if d == 4 {
        '4'
    } else if d == 5 {
        '5'
    } else if d == 6 {
        '6'
    } else if d == 7 {
        '7'
    } else if d == 8 {
        '8'
    } else {
        '9'
    }
}

/// The decimal digits of a natural number, most significant first, with no
/// leading zeros (`0` is written `0`).
pub open spec fn digits_of(n: nat) -> Seq<char>
    decreases n,
{
    if n < 10 {
        seq![digit_char(n)]
    } else {
        digits_of(n / 10).push(digit_char(n % 10))
    }
}

/// An integer in decimal: a minus sign before the digits of a negative one.
pub open spec fn decimal_text(n: int) -> Seq<char> {
    if n < 0 {
        seq!['-'] + digits_of((-n) as nat)
    } else {
        digits_of(n as nat)
    }
}

fn digit_str(d: u64) -> (r: &'static str)
    requires
        d < 10,
    ensures
        r@ == seq![digit_char(d as nat)],
{
    proof {
        reveal_strlit("0");
        reveal_strlit("1");
        reveal_strlit("2");
        reveal_strlit("3");
        reveal_strlit("4");
        reveal_strlit("5");
        reveal_strlit("6");
        reveal_strlit("7");
        reveal_strlit("8");
        reveal_strlit("9");
    }
    if d == 0 {
        "0"
    } else if d == 1 {
        "1"
    } else if d == 2 {
        "2"
    } else if d == 3 {
        "3"
    } else if d == 4 {
        "4"
    } else if d == 5 {
        "5"
    } else if d == 6 {
        "6"
    } else if d == 7 {
        "7"
    } else if d == 8 {
        "8"
    } else {
        "9"
    }
}

fn append_digits(text: &mut String, n: u64)
    ensures
        final(text)@ == old(text)@ + digits_of(n as nat),
    decreases n,
{
    if n >= 10 {
        append_digits(text, n / 10);
    }
    text.append(digit_str(n % 10));
    proof {
        if n >= 10 {
            assert(digits_of(n as nat) == digits_of((n / 10) as nat).push(digit_char((n % 10) as nat)));
        }
    }
    assert(text@ =~= old(text)@ + digits_of(n as nat));
}

/// A natural number in decimal.
pub fn u64_decimal(n: u64) -> (r: String)
    ensures
        r@ == decimal_text(n as int),
{
    let mut text = String::new();
    append_digits(&mut text, n);
    assert(text@ =~= digits_of(n as nat));
    text
}

/// An integer in decimal.
pub fn i64_decimal(n: i64) -> (r: String)
    ensures
        r@ == decimal_text(n as int),
{
    if n < 0 {
        let below: i64 = -(n + 1);
        let magnitude: u64 = below as u64 + 1;
        let mut text = "-".to_string();
        proof {
            reveal_strlit("-");
        }
        append_digits(&mut text, magnitude);
        assert(text@ =~= seq!['-'] + digits_of((-n) as nat));
        text
    } else {
        u64_decimal(n as u64)
    }
}

/// The number that a digit stands for.
pub open spec fn digit_value(c: char) -> int {
    c as int - '0' as int
}

/// The number that a string of decimal digits stands for, most significant
/// digit first.
pub open spec fn digits_value(s: Seq<char>) -> int
    decreases s.len(),
{
    if s.len() == 0 {
        0
    } else {
        10 * digits_value(s.drop_last()) + digit_value(s.last())
    }
}

/// A number's decimal text is made of the digits `0` to `9`, most
/// significant first, stands for the number, and starts with `0` only when
/// it is `0`; a negative number has a minus sign before the digits of its
/// magnitude.
pub proof fn law_decimal_text(n: int)
    ensures
        n >= 0 ==> decimal_text(n) == digits_of(n as nat),
        n < 0 ==> decimal_text(n) == seq!['-'] + digits_of((-n) as nat),
        n >= 0 ==> digits_value(digits_of(n as nat)) == n,
        n >= 0 ==> forall|i: int| 0 <= i < digits_of(n as nat).len() ==> '0' <= #[trigger] digits_of(n as nat)[i] <= '9',
        n >= 0 ==> digits_of(n as nat).len() >= 1 && (digits_of(n as nat)[0] == '0' <==> n == 0),
    decreases if n >= 0 { n } else { 0 },
{
    if n >= 0 {
        lemma_digits(n as nat);
    }
}

proof fn lemma_digit_value(d: nat)
    requires
        d < 10,
    ensures
        digit_value(digit_char(d)) == d,
        '0' <= digit_char(d) <= '9',
        digit_char(d) == '0' <==> d == 0,
{
}

proof fn lemma_digits(n: nat)
    ensures
        digits_value(digits_of(n)) == n,
        forall|i: int| 0 <= i < digits_of(n).len() ==> '0' <= #[trigger] digits_of(n)[i] <= '9',
        digits_of(n).len() >= 1,
        digits_of(n)[0] == '0' <==> n == 0,
    decreases n,
{
    let d = digits_of(n);
    lemma_digit_value(n % 10);
    if n < 10 {
        assert(d.drop_last() =~= Seq::<char>::empty());
        assert(digits_value(Seq::<char>::empty()) == 0);
        assert(n % 10 == n);
    } else {
        lemma_digits(n / 10);
        let p = digits_of(n / 10);
        assert(d == p.push(digit_char(n % 10)));
        assert(d.drop_last() =~= p);
        assert(d[0] == p[0]);
        assert forall|i: int| 0 <= i < d.len() implies '0' <= #[trigger] d[i] <= '9' by {
            if i < p.len() {
                assert(d[i] == p[i]);
            }
        }
    }
}

} // verus!
