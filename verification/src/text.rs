//! Decimal text of integers, as error and device descriptions show them.

use vstd::prelude::*;

verus! {

/// The character of one decimal digit.
pub open spec fn digit(d: int) -> char
    recommends
        0 <= d < 10,
{
    if d == 0 {
        '0'
    } else if d == 1 {
        '1'
    } else if d == 2 {
        '2'
    } else if d == 3 {
        '3'
    } else if d == 4 {
        '4'
    } else if d == 5 {
        '5'
    } else if d == 6 {
        '6'
    } else if d == 7 {
        '7'
    } else if d == 8 {
        '8'
    } else {
        '9'
    }
}

/// The decimal digits of a natural number, most significant first, without
/// leading zeros.
pub open spec fn digits(n: nat) -> Seq<char>
    decreases n,
{
    if n < 10 {
        seq![digit(n as int)]
    } else {
        digits(n / 10).push(digit((n % 10) as int))
    }
}

/// The decimal text of an integer: a minus sign for a negative one, then the
/// digits of its magnitude.
pub open spec fn decimal(n: int) -> Seq<char> {
    if n < 0 {
        seq!['-'] + digits((-n) as nat)
    } else {
        digits(n as nat)
    }
}

/// Whether `chars` is plain text: every character of it is ASCII and none is
/// the zero character.
pub open spec fn is_plain(chars: Seq<char>) -> bool {
    forall|i: int| 0 <= i < chars.len() ==> '\u{1}' <= #[trigger] chars[i] <= '\u{7f}'
}

/// Plain text joined to plain text is plain text.
pub proof fn lemma_plain_joined(left: Seq<char>, right: Seq<char>)
    requires
        is_plain(left),
        is_plain(right),
    ensures
        is_plain(left + right),
{
    assert forall|i: int| 0 <= i < (left + right).len() implies '\u{1}' <= #[trigger] (left
        + right)[i] <= '\u{7f}' by {
        if i < left.len() {
            assert((left + right)[i] == left[i]);
        } else {
            assert((left + right)[i] == right[i - left.len()]);
        }
    }
}

/// The digits of a number are plain text.
pub proof fn lemma_digits_plain(n: nat)
    ensures
        is_plain(digits(n)),
    decreases n,
{
    if n >= 10 {
        lemma_digits_plain(n / 10);
        lemma_plain_joined(digits(n / 10), seq![digit((n % 10) as int)]);
        assert(digits(n) =~= digits(n / 10) + seq![digit((n % 10) as int)]);
    }
}

/// The decimal text of an integer is plain text.
pub proof fn lemma_decimal_plain(n: int)
    ensures
        is_plain(decimal(n)),
{
    if n < 0 {
        lemma_digits_plain((-n) as nat);
        lemma_plain_joined(seq!['-'], digits((-n) as nat));
    } else {
        lemma_digits_plain(n as nat);
    }
}

/// The digits before the last one; none for a number below ten.
spec fn leading_digits(n: nat) -> Seq<char> {
    if n < 10 {
        Seq::empty()
    } else {
        digits(n / 10)
    }
}

proof fn lemma_digits_split(n: nat)
    ensures
        digits(n) == leading_digits(n) + seq![digit((n % 10) as int)],
{
    if n < 10 {
        assert(digits(n) =~= Seq::<char>::empty() + seq![digit(n as int)]);
    } else {
        assert(digits(n) =~= digits(n / 10) + seq![digit((n % 10) as int)]);
    }
}

fn digit_text(d: u64) -> (text: &'static str)
    requires
        d < 10,
    ensures
        text@ == seq![digit(d as int)],
{
    proof {
        reveal_strlit("0");
        reveal_strlit("1");
        reveal_strlit("2");
        reveal_strlit("3");
        reveal_strlit("4");
        reveal_strlit("5");
        reveal_strlit("6");
        reveal_strlit("7");
        reveal_strlit("8");
        reveal_strlit("9");
    }
    let text = if d == 0 {
        "0"
    } else if d == 1 {
        "1"
    } else if d == 2 {
        "2"
    } else if d == 3 {
        "3"
    } else if d == 4 {
        "4"
    } else if d == 5 {
        "5"
    } else if d == 6 {
        "6"
    } else if d == 7 {
        "7"
    } else if d == 8 {
        "8"
    } else {
        "9"
    };
    assert(text@ =~= seq![digit(d as int)]);
    text
}

/// Writes a natural number in decimal.
pub fn unsigned_decimal(n: u64) -> (text: String)
    ensures
        text@ == digits(n as nat),
{
    let mut rest: u64 = n / 10;
    let mut text = String::from_str(digit_text(n % 10));
    proof {
        lemma_digits_split(n as nat);
    }
    while rest > 0
        invariant
            digits(n as nat) == (if rest == 0 {
                Seq::<char>::empty()
            } else {
                digits(rest as nat)
            }) + text@,
        decreases rest,
    {
        proof {
            lemma_digits_split(rest as nat);
        }
        let ghost before = text@;
        text = String::from_str(digit_text(rest % 10)).concat(text.as_str());
        assert(leading_digits(rest as nat) + text@ =~= digits(rest as nat) + before);
        rest = rest / 10;
    }
    assert(Seq::<char>::empty() + text@ =~= text@);
    text
}

/// Writes an integer in decimal.
pub fn decimal_text(n: i64) -> (text: String)
    ensures
        text@ == decimal(n as int),
{
    if n < 0 {
        let magnitude: u64 = if n == i64::MIN {
            9223372036854775808
        } else {
            (-n) as u64
        };
        proof {
            reveal_strlit("-");
            assert("-"@ =~= seq!['-']);
        }
        String::from_str("-").concat(unsigned_decimal(magnitude).as_str())
    } else {
        unsigned_decimal(n as u64)
    }
}

} // verus!
