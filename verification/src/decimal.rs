//! Integers written in decimal.

use vstd::prelude::*;
use vstd::string::StringExecFns;

verus! {

/// The character of a digit.
pub open spec fn digit_char(d: int) -> char {
    if d == 0 {
        '0'
    } else if d == 1 {
        '1'
    } else if d == 2 {
        '2'
    } else if d == 3 {
        '3'
    } else if d == 4 {
        '4'
    } else if d == 5 {
        '5'
    } else if d == 6 {
        '6'
    } else if d == 7 {
        '7'
    } else if d == 8 {
        '8'
    } else {
        '9'
    }
}

/// A natural number in decimal, without leading zeros.
pub open spec fn natural_text(n: nat) -> Seq<char>
    decreases n,
{
    if n < 10 {
        seq![digit_char(n as int)]
    } else {
        natural_text(n / 10).push(digit_char((n % 10) as int))
    }
}

/// An integer in decimal: a minus sign if it is negative, then its
/// magnitude.
pub open spec fn integer_text(v: int) -> Seq<char> {
    if v < 0 {
        seq!['-'] + natural_text((-v) as nat)
    } else {
        natural_text(v as nat)
    }
}

/// The digits from the last to the first, as text.
spec fn reversed_text(digits: Seq<u8>) -> Seq<char> {
    Seq::new(digits.len(), |i: int| digit_char(digits[digits.len() - 1 - i] as int))
}

fn digit_str(d: u8) -> (text: &'static str)
    requires
        d < 10,
    ensures
        text@ == seq![digit_char(d as int)],
{
    proof {
        reveal_strlit("0");
        reveal_strlit("1");
        reveal_strlit("2");
        reveal_strlit("3");
        reveal_strlit("4");
        reveal_strlit("5");
        reveal_strlit("6");
        reveal_strlit("7");
        reveal_strlit("8");
        reveal_strlit("9");
    }
    let text = if d == 0 {
        "0"
    } else if d == 1 {
        "1"
    } else if d == 2 {
        "2"
    } else if d == 3 {
        "3"
    } else if d == 4 {
        "4"
    } else if d == 5 {
        "5"
    } else if d == 6 {
        "6"
    } else if d == 7 {
        "7"
    } else if d == 8 {
        "8"
    } else {
        "9"
    };
    assert(text@ =~= seq![digit_char(d as int)]);
    text
}

/// Appends a natural number in decimal.
fn append_natural(text: &mut String, n: u64)
    ensures
        final(text)@ == old(text)@ + natural_text(n as nat),
{
    let ghost start = text@;
    // the digits, the last one first
    let mut digits: Vec<u8> = Vec::new();
    let mut rest: u64 = n;
    assert(reversed_text(digits@) =~= Seq::<char>::empty());
    assert(natural_text(rest as nat) + Seq::<char>::empty() =~= natural_text(rest as nat));
    while rest >= 10
        invariant
            natural_text(n as nat) == natural_text(rest as nat) + reversed_text(digits@),
            forall|i: int| 0 <= i < digits@.len() ==> digits@[i] < 10,
        decreases rest,
    {
        let d = (rest % 10) as u8;
        proof {
            let shorter = natural_text((rest / 10) as nat);
            assert(natural_text(rest as nat) == shorter.push(digit_char(d as int)));
            assert(reversed_text(digits@.push(d)) =~= seq![digit_char(d as int)] + reversed_text(
                digits@,
            ));
            assert(shorter.push(digit_char(d as int)) + reversed_text(digits@) =~= shorter
                + reversed_text(digits@.push(d)));
        }
        digits.push(d);
        rest = rest / 10;
    }
    proof {
        let d = rest as u8;
        assert(natural_text(rest as nat) == seq![digit_char(d as int)]);
        assert(reversed_text(digits@.push(d)) =~= seq![digit_char(d as int)] + reversed_text(
            digits@,
        ));
    }
    digits.push(rest as u8);
    let mut i: usize = digits.len();
    assert(reversed_text(digits@).take(0) =~= Seq::<char>::empty());
    assert(text@ =~= start + reversed_text(digits@).take(0));
    while i > 0
        invariant
            i <= digits.len(),
            natural_text(n as nat) == reversed_text(digits@),
            forall|j: int| 0 <= j < digits@.len() ==> digits@[j] < 10,
            text@ == start + reversed_text(digits@).take(digits.len() - i),
        decreases i,
    {
        i -= 1;
        let ghost before = text@;
        text.append(digit_str(digits[i]));
        proof {
            let all = reversed_text(digits@);
            let k = digits.len() - 1 - i;
            assert(all[k] == digit_char(digits@[i as int] as int));
            assert(all.take(k + 1) =~= all.take(k).push(all[k]));
            assert(text@ =~= start + all.take(k + 1));
        }
    }
    assert(reversed_text(digits@).take(digits.len() as int) =~= reversed_text(digits@));
}

/// A natural number in decimal.
pub fn natural_to_decimal(n: u64) -> (text: String)
    ensures
        text@ == natural_text(n as nat),
{
    let mut text = String::new();
    append_natural(&mut text, n);
    assert(Seq::<char>::empty() + natural_text(n as nat) =~= natural_text(n as nat));
    text
}

/// An integer in decimal.
pub fn integer_to_decimal(v: i64) -> (text: String)
    ensures
        text@ == integer_text(v as int),
{
    let mut text = String::new();
    if v < 0 {
        proof {
            reveal_strlit("-");
        }
        // the magnitude of the least integer does not fit the integers
        let magnitude: u64 = (-(v + 1)) as u64 + 1;
        text.append("-");
        assert(text@ =~= seq!['-']);
        append_natural(&mut text, magnitude);
    } else {
        append_natural(&mut text, v as u64);
        assert(Seq::<char>::empty() + natural_text(v as nat) =~= natural_text(v as nat));
    }
    text
}

} // verus!
