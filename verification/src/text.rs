//! Decimal text of numbers, as sequences of characters.

use vstd::prelude::*;

verus! {

/// The character of one decimal digit. Values below `0` count as `0`, values
/// above `9` as `9`.
pub open spec fn digit(d: int) -> char {
    if d <= 0 {
        '0'
    } else if d == 1 {
        '1'
    } else if d == 2 {
        '2'
    } else if d == 3 {
        '3'
    } else if d == 4 {
        '4'
    } else if d == 5 {
        '5'
    } else if d == 6 {
        '6'
    } else if d == 7 {
        '7'
    } else if d == 8 {
        '8'
    } else {
        '9'
    }
}

/// The decimal digits of `n`, most significant first, without padding.
pub open spec fn decimal(n: nat) -> Seq<char>
    decreases n,
{
    if n < 10 {
        seq![digit(n as int)]
    } else {
        decimal(n / 10).push(digit((n % 10) as int))
    }
}

/// The last two decimal digits of `n`, zero-padded.
pub open spec fn two_digits(n: int) -> Seq<char> {
    seq![digit((n / 10) % 10), digit(n % 10)]
}

/// The last four decimal digits of `n`, zero-padded.
pub open spec fn four_digits(n: int) -> Seq<char> {
    seq![digit((n / 1000) % 10), digit((n / 100) % 10), digit((n / 10) % 10), digit(n % 10)]
}

/// A number counted in tenths, written with one decimal place: `5` is
/// `0.5`, `-12` is `-1.2`.
pub open spec fn tenths(t: int) -> Seq<char> {
    let magnitude: nat = if t < 0 {
        (-t) as nat
    } else {
        t as nat
    };
    let sign: Seq<char> = if t < 0 {
        seq!['-']
    } else {
        seq![]
    };
    sign + decimal(magnitude / 10) + seq!['.', digit((magnitude % 10) as int)]
}

/// Two equal concatenations whose second parts have one length agree part
/// by part.
pub proof fn lemma_concat_parts(p: Seq<char>, t: Seq<char>, q: Seq<char>, u: Seq<char>)
    requires
        t.len() == u.len(),
        p + t == q + u,
    ensures
        p == q,
        t == u,
{
    let n = p.len() as int;
    assert((p + t).len() == p.len() + t.len());
    assert((q + u).len() == q.len() + u.len());
    assert(p.len() == q.len());
    assert(p =~= (p + t).subrange(0, n));
    assert(q =~= (q + u).subrange(0, n));
    assert(t =~= (p + t).subrange(n, n + t.len()));
    assert(u =~= (q + u).subrange(n, n + t.len()));
}

/// Distinct digits have distinct characters.
pub proof fn lemma_digit_injective(a: int, b: int)
    requires
        0 <= a <= 9,
        0 <= b <= 9,
        digit(a) == digit(b),
    ensures
        a == b,
{
}

/// Two numbers below one hundred with the same two digits are equal.
pub proof fn lemma_two_digits_injective(a: int, b: int)
    requires
        0 <= a <= 99,
        0 <= b <= 99,
        two_digits(a) == two_digits(b),
    ensures
        a == b,
{
    assert(two_digits(a)[0] == two_digits(b)[0]);
    assert(two_digits(a)[1] == two_digits(b)[1]);
    lemma_digit_injective((a / 10) % 10, (b / 10) % 10);
    lemma_digit_injective(a % 10, b % 10);
}

/// Two numbers below ten thousand with the same four digits are equal.
pub proof fn lemma_four_digits_injective(a: int, b: int)
    requires
        0 <= a <= 9999,
        0 <= b <= 9999,
        four_digits(a) == four_digits(b),
    ensures
        a == b,
{
    assert(four_digits(a)[0] == four_digits(b)[0]);
    assert(four_digits(a)[1] == four_digits(b)[1]);
    assert(four_digits(a)[2] == four_digits(b)[2]);
    assert(four_digits(a)[3] == four_digits(b)[3]);
    lemma_digit_injective((a / 1000) % 10, (b / 1000) % 10);
    lemma_digit_injective((a / 100) % 10, (b / 100) % 10);
    lemma_digit_injective((a / 10) % 10, (b / 10) % 10);
    lemma_digit_injective(a % 10, b % 10);
}

/// The text of one decimal digit.
fn digit_str(d: u32) -> (text: &'static str)
    requires
        d <= 9,
    ensures
        text@ == seq![digit(d as int)],
{
    proof {
        reveal_strlit("0");
        reveal_strlit("1");
        reveal_strlit("2");
        reveal_strlit("3");
        reveal_strlit("4");
        reveal_strlit("5");
        reveal_strlit("6");
        reveal_strlit("7");
        reveal_strlit("8");
        reveal_strlit("9");
    }
    let text: &'static str = if d == 0 {
        "0"
    } else if d == 1 {
        "1"
    } else if d == 2 {
        "2"
    } else if d == 3 {
        "3"
    } else if d == 4 {
        "4"
    } else if d == 5 {
        "5"
    } else if d == 6 {
        "6"
    } else if d == 7 {
        "7"
    } else if d == 8 {
        "8"
    } else {
        "9"
    };
    assert(text@ =~= seq![digit(d as int)]);
    text
}

/// Writes `n` in decimal, without sign or padding.
pub fn decimal_string(n: u32) -> (text: String)
    ensures
        text@ == decimal(n as nat),
    decreases n,
{
    if n < 10 {
        digit_str(n).to_owned()
    } else {
        let mut text: String = decimal_string(n / 10);
        text.append(digit_str(n % 10));
        assert(text@ =~= decimal(n as nat));
        text
    }
}

/// Writes a number counted in tenths with one decimal place.
pub fn tenths_string(t: i32) -> (text: String)
    ensures
        text@ == tenths(t as int),
{
    let magnitude: u32 = if t < 0 {
        (-(t as i64)) as u32
    } else {
        t as u32
    };
    let mut text: String = if t < 0 {
        proof {
            reveal_strlit("-");
        }
        "-".to_owned()
    } else {
        String::new()
    };
    let whole: String = decimal_string(magnitude / 10);
    text.append(whole.as_str());
    proof {
        reveal_strlit(".");
    }
    text.append(".");
    text.append(digit_str(magnitude % 10));
    assert(text@ =~= tenths(t as int));
    text
}

} // verus!
