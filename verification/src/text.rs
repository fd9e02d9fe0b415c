//! Small text building blocks: decimal rendering of integers and the
//! character-level operations the labels of the cue system are made of.

use vstd::prelude::*;

verus! {

/// The ASCII digit of a value below ten.
pub open spec fn digit_char(d: nat) -> char {
    (d + 48) as char
}

/// The decimal rendering of a natural number, without sign or padding.
pub open spec fn decimal(n: nat) -> Seq<char>
    decreases n,
{
    if n < 10 {
        seq![digit_char(n)]
    } else {
        decimal(n / 10).push(digit_char(n % 10))
    }
}

/// The decimal rendering of `n`, left-padded with zeros to at least `width`
/// characters (the `{:0width}` format of an unsigned integer).
pub open spec fn zero_padded(n: nat, width: nat) -> Seq<char> {
    let d = decimal(n);
    if d.len() < width {
        Seq::new((width - d.len()) as nat, |i: int| '0') + d
    } else {
        d
    }
}

/// Every decimal rendering has at least one character.
pub proof fn lemma_decimal_nonempty(n: nat)
    ensures
        decimal(n).len() >= 1,
    decreases n,
{
    if n >= 10 {
        lemma_decimal_nonempty(n / 10);
    }
}

/// Numbers below ten render as a single digit.
pub proof fn lemma_decimal_single_digit(n: nat)
    requires
        n < 10,
    ensures
        decimal(n) == seq![digit_char(n)],
{
}

/// Appends one character (`String::push`).
#[verifier::external_body]
pub(crate) fn push_char(s: &mut String, c: char)
    ensures
        final(s)@ == old(s)@.push(c),
{
    s.push(c);
}

/// The ASCII digit of a value below ten.
pub fn digit_of(d: u64) -> (c: char)
    requires
        d < 10,
    ensures
        c == digit_char(d as nat),
{
    let b: u8 = 48u8 + (d as u8);
    b as char
}

/// Appends the decimal rendering of `n`.
pub fn push_decimal(s: &mut String, n: u64)
    ensures
        final(s)@ == old(s)@ + decimal(n as nat),
    decreases n,
{
    let ghost before = s@;
    if n >= 10 {
        push_decimal(s, n / 10);
    }
    let c = digit_of(n % 10);
    push_char(s, c);
    proof {
        if n >= 10 {
            assert(decimal(n as nat) == decimal((n / 10) as nat).push(digit_char((n % 10) as nat)));
            assert(s@ =~= before + decimal(n as nat));
        } else {
            assert(s@ =~= before + decimal(n as nat));
        }
    }
}

/// Appends the decimal rendering of `n`, zero-padded to two characters.
pub fn push_two_digits(s: &mut String, n: u64)
    ensures
        final(s)@ == old(s)@ + zero_padded(n as nat, 2),
{
    let ghost before = s@;
    if n < 10 {
        push_char(s, '0');
        proof {
            lemma_decimal_single_digit(n as nat);
        }
    } else {
        proof {
            lemma_decimal_nonempty((n / 10) as nat);
        }
    }
    push_decimal(s, n);
    proof {
        lemma_decimal_nonempty(n as nat);
        if n < 10 {
            assert(Seq::new((2 - decimal(n as nat).len()) as nat, |i: int| '0') =~= seq!['0']);
        }
        assert(s@ =~= before + zero_padded(n as nat, 2));
    }
}

} // verus!
