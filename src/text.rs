use vstd::prelude::*;

verus! {

/// The character of a decimal digit `d < 10`.
pub open spec fn digit_char(d: nat) -> char {
    if d == 0 {
        '0'
    } else if d == 1 {
        '1'
    } else if d == 2 {
        '2'
    } else if d == 3 {
        '3'
    } else if d == 4 {
        '4'
    } else if d == 5 {
        '5'
    } else if d == 6 {
        '6'
    } else if d == 7 {
        '7'
    } else if d == 8 {
        '8'
    } else {
        '9'
    }
}

/// The decimal digits of `n`, most significant first, without leading zeros.
pub open spec fn digits_of(n: nat) -> Seq<char>
    decreases n,
{
    if n < 10 {
        seq![digit_char(n)]
    } else {
        digits_of(n / 10) + seq![digit_char(n % 10)]
    }
}

/// The usual decimal form of an integer: a minus sign when it is negative,
/// then its digits.
pub open spec fn decimal_text(n: int) -> Seq<char> {
    if n < 0 {
        seq!['-'] + digits_of((-n) as nat)
    } else {
        digits_of(n as nat)
    }
}

/// The separator between the fields of a value's string form.
pub open spec fn field_separator() -> Seq<char> {
    seq![',', ' ']
}

/// Relies on `ToString` for `i32` (its `Display`): the decimal form, with a
/// leading minus sign for negative values.
#[verifier::external_body]
pub(crate) fn int_text(v: i32) -> (r: String)
    ensures
        r@ == decimal_text(v as int),
{
    v.to_string()
}

/// Appends the field separator to `s`.
pub(crate) fn push_separator(s: &mut String)
    ensures
        final(s)@ == old(s)@ + field_separator(),
{
    let sep = ", ";
    proof {
        reveal_strlit(", ");
    }
    s.append(sep);
}

} // verus!
