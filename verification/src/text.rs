//! Numbers written out in decimal digits, as the times of a ghost are shown.

use vstd::prelude::*;
use vstd::string::StringExecFns;

verus! {

/// The digit that stands for `d`.
pub open spec fn digit_char(d: nat) -> char {
    if d == 0 {
        '0'
    } else if d == 1 {
        '1'
    } else if d == 2 {
        '2'
    } else if d == 3 {
        '3'
    } else if d == 4 {
        '4'
    } else if d == 5 {
        '5'
    } else if d == 6 {
        '6'
    } else if d == 7 {
        '7'
    } else if d == 8 {
        '8'
    } else {
        '9'
    }
}

/// `n` in decimal digits, without zeros in front.
pub open spec fn decimal(n: nat) -> Seq<char>
    decreases n,
{
    if n < 10 {
        seq![digit_char(n)]
    } else {
        decimal(n / 10).push(digit_char(n % 10))
    }
}

/// `n` in decimal digits, with zeros in front where it has fewer than `width`
/// digits.
pub open spec fn zero_padded(n: nat, width: nat) -> Seq<char> {
    let digits = decimal(n);
    if digits.len() >= width {
        digits
    } else {
        Seq::new((width - digits.len()) as nat, |i: int| '0') + digits
    }
}

fn push_digit(text: &mut String, d: u8)
    requires
        d < 10,
    ensures
        final(text)@ == old(text)@.push(digit_char(d as nat)),
{
    proof {
        reveal_strlit("0");
        reveal_strlit("1");
        reveal_strlit("2");
        reveal_strlit("3");
        reveal_strlit("4");
        reveal_strlit("5");
        reveal_strlit("6");
        reveal_strlit("7");
        reveal_strlit("8");
        reveal_strlit("9");
    }
    let ghost before = text@;
    if d == 0 {
        text.append("0");
    } else if d == 1 {
        text.append("1");
    } else if d == 2 {
        text.append("2");
    } else if d == 3 {
        text.append("3");
    } else if d == 4 {
        text.append("4");
    } else if d == 5 {
        text.append("5");
    } else if d == 6 {
        text.append("6");
    } else if d == 7 {
        text.append("7");
    } else if d == 8 {
        text.append("8");
    } else {
        text.append("9");
    }
    assert(text@ =~= before.push(digit_char(d as nat)));
}

/// Writes `n` behind `text`, in at least `width` digits.
pub fn push_zero_padded(text: &mut String, n: u64, width: usize)
    ensures
        final(text)@ == old(text)@ + zero_padded(n as nat, width as nat),
{
    let ghost before = text@;
    // the digits, the last one first
    let mut digits: Vec<u8> = Vec::new();
    digits.push((n % 10) as u8);
    let mut rest: u64 = n / 10;
    assert(digits@.map_values(|d: u8| digit_char(d as nat)).reverse() =~= seq![
        digit_char((n % 10) as nat),
    ]);
    while rest > 0
        invariant
            digits@.len() > 0,
            forall|i: int| 0 <= i < digits@.len() ==> digits@[i] < 10,
            rest > 0 ==> decimal(n as nat) == decimal(rest as nat) + digits@.map_values(
                |d: u8| digit_char(d as nat),
            ).reverse(),
            rest == 0 ==> decimal(n as nat) == digits@.map_values(
                |d: u8| digit_char(d as nat),
            ).reverse(),
        decreases rest,
    {
        let ghost shown = digits@.map_values(|d: u8| digit_char(d as nat)).reverse();
        let ghost old_rest = rest;
        digits.push((rest % 10) as u8);
        rest = rest / 10;
        proof {
            let now = digits@.map_values(|d: u8| digit_char(d as nat)).reverse();
            assert(now =~= seq![digit_char((old_rest % 10) as nat)] + shown);
            if old_rest < 10 {
                assert(decimal(old_rest as nat) =~= seq![digit_char((old_rest % 10) as nat)]);
            } else {
                assert(decimal(old_rest as nat) + shown =~= decimal(rest as nat) + now);
            }
        }
    }
    let ghost shown = digits@.map_values(|d: u8| digit_char(d as nat)).reverse();
    let mut zeros: usize = digits.len();
    while zeros < width
        invariant
            digits@.len() <= zeros,
            digits@.len() < width ==> zeros <= width,
            digits@.len() >= width ==> zeros == digits@.len(),
            text@ == before + Seq::new((zeros - digits@.len()) as nat, |i: int| '0'),
        decreases width - zeros,
    {
        let ghost so_far = text@;
        push_digit(text, 0);
        zeros += 1;
        assert(text@ =~= before + Seq::new((zeros - digits@.len()) as nat, |i: int| '0'));
    }
    let ghost padded = text@;
    let mut i: usize = digits.len();
    while i > 0
        invariant
            i <= digits@.len(),
            forall|j: int| 0 <= j < digits@.len() ==> digits@[j] < 10,
            shown == digits@.map_values(|d: u8| digit_char(d as nat)).reverse(),
            text@ == padded + shown.take(digits@.len() - i),
        decreases i,
    {
        i -= 1;
        push_digit(text, digits[i]);
        assert(text@ =~= padded + shown.take(digits@.len() - i));
    }
    assert(shown.len() == digits@.len());
    assert(shown.take(digits@.len() as int) =~= shown);
    proof {
        assert(decimal(n as nat) == shown);
        if digits@.len() >= width as nat {
            assert(zeros == digits@.len());
            assert(padded =~= before);
        } else {
            assert(zeros == width);
        }
    }
    assert(text@ =~= before + zero_padded(n as nat, width as nat));
}

} // verus!
