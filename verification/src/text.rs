//! Building and comparing text: characters appended to a `String`, string
//! slices compared, and unsigned numbers written out in decimal.

use vstd::prelude::*;

verus! {

/// `String::push` of the standard library: the character is appended at the
/// end and nothing else changes.
pub assume_specification[ String::push ](s: &mut String, c: char)
    ensures
        final(s)@ == old(s)@.push(c),
;

/// `str`'s equality of the standard library: two string slices are equal
/// exactly when they hold the same characters.
pub assume_specification[ <str as PartialEq>::eq ](a: &str, b: &str) -> (r: bool)
    ensures
        r == (a@ == b@),
;

/// The character that writes the decimal digit `d`.
pub open spec fn digit_char(d: nat) -> char
    recommends
        d < 10,
{
    if d == 0 {
        '0'
    } else if d == 1 {
        '1'
    } else if d == 2 {
        '2'
    } else if d == 3 {
        '3'
    } else if d == 4 {
        '4'
    } else if d == 5 {
        '5'
    } else if d == 6 {
        '6'
    } else if d == 7 {
        '7'
    } else if d == 8 {
        '8'
    } else {
        '9'
    }
}

/// `n` in decimal, most significant digit first, without leading zeros;
/// zero is written as the single digit `0`.
pub open spec fn decimal_digits(n: nat) -> Seq<char>
    decreases n,
{
    if n < 10 {
        seq![digit_char(n)]
    } else {
        decimal_digits(n / 10).push(digit_char(n % 10))
    }
}

/// `count` copies of `c`.
pub open spec fn repeated(c: char, count: nat) -> Seq<char> {
    Seq::new(count, |i: int| c)
}

/// `text` with as many `fill` characters in front as it takes to reach
/// `width` characters; a text that is already that long stays as it is.
pub open spec fn padded_left(text: Seq<char>, width: nat, fill: char) -> Seq<char> {
    if text.len() >= width {
        text
    } else {
        repeated(fill, (width - text.len()) as nat) + text
    }
}

/// The character of one decimal digit.
pub(crate) fn digit_to_char(d: u8) -> (c: char)
    requires
        d < 10,
    ensures
        c == digit_char(d as nat),
{
    if d == 0 {
        '0'
    } else if d == 1 {
        '1'
    } else if d == 2 {
        '2'
    } else if d == 3 {
        '3'
    } else if d == 4 {
        '4'
    } else if d == 5 {
        '5'
    } else if d == 6 {
        '6'
    } else if d == 7 {
        '7'
    } else if d == 8 {
        '8'
    } else {
        '9'
    }
}

/// Appends `count` copies of `c` to `out`.
pub fn push_repeated(out: &mut String, c: char, count: usize)
    ensures
        final(out)@ == old(out)@ + repeated(c, count as nat),
{
    let mut done: usize = 0;
    while done < count
        invariant
            done <= count,
            out@ == old(out)@ + repeated(c, done as nat),
        decreases count - done,
    {
        out.push(c);
        done = done + 1;
        assert(out@ =~= old(out)@ + repeated(c, done as nat));
    }
}

/// Appends `n` in decimal to `out`.
pub fn push_decimal(out: &mut String, n: u128)
    ensures
        final(out)@ == old(out)@ + decimal_digits(n as nat),
{
    let mut low_first: Vec<u8> = Vec::new();
    let mut rest: u128 = n;
    while rest >= 10
        invariant
            forall|i: int| 0 <= i < low_first@.len() ==> low_first@[i] < 10,
            decimal_digits(n as nat) == decimal_digits(rest as nat) + reversed_digits(
                low_first@,
            ),
        decreases rest,
    {
        let d: u8 = (rest % 10) as u8;
        proof {
            let grown = low_first@.push(d);
            assert(grown.drop_last() =~= low_first@);
            assert(decimal_digits(rest as nat) == decimal_digits((rest / 10) as nat).push(
                digit_char((rest % 10) as nat),
            ));
            assert(decimal_digits((rest / 10) as nat).push(digit_char(d as nat))
                + reversed_digits(low_first@) =~= decimal_digits((rest / 10) as nat)
                + reversed_digits(grown));
        }
        low_first.push(d);
        rest = rest / 10;
    }
    out.push(digit_to_char(rest as u8));
    let mut left: usize = low_first.len();
    proof {
        assert(low_first@.take(left as int) =~= low_first@);
        assert(reversed_digits(Seq::<u8>::empty()) =~= Seq::<char>::empty());
    }
    while left > 0
        invariant
            left <= low_first@.len(),
            forall|i: int| 0 <= i < low_first@.len() ==> low_first@[i] < 10,
            out@ + reversed_digits(low_first@.take(left as int)) == old(out)@ + decimal_digits(
                n as nat,
            ),
        decreases left,
    {
        left = left - 1;
        let d: u8 = low_first[left];
        proof {
            let before = low_first@.take(left + 1);
            assert(before.drop_last() =~= low_first@.take(left as int));
            assert(before.last() == d);
            assert(out@.push(digit_char(d as nat)) + reversed_digits(low_first@.take(left as int))
                =~= out@ + reversed_digits(before));
        }
        out.push(digit_to_char(d));
    }
    proof {
        assert(low_first@.take(0) =~= Seq::<u8>::empty());
        assert(out@ + Seq::<char>::empty() =~= out@);
    }
}

/// A number below ten has one decimal digit, any other at least two.
pub proof fn lemma_decimal_digits_len(n: nat)
    ensures
        n < 10 ==> decimal_digits(n).len() == 1,
        n >= 10 ==> decimal_digits(n).len() >= 2,
    decreases n,
{
    if n >= 10 {
        lemma_decimal_digits_len(n / 10);
    }
}

/// The digits of `low_first`, which holds the least significant digit
/// first, written most significant digit first.
spec fn reversed_digits(low_first: Seq<u8>) -> Seq<char>
    decreases low_first.len(),
{
    if low_first.len() == 0 {
        Seq::<char>::empty()
    } else {
        seq![digit_char(low_first.last() as nat)] + reversed_digits(low_first.drop_last())
    }
}

} // verus!
