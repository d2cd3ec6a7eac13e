//! The public inputs of a proof: the opponent's guess digit by digit, the
//! prover's commitment and the three reported counts, each written as one
//! 32-byte big-endian field element.

use vstd::arithmetic::div_mod::lemma_div_denominator;
use vstd::prelude::*;

verus! {

/// The number of bytes in one field element.
pub const FIELD_BYTES: usize = 32;

/// The longest secret a deployment can be set up for: a guess is a `u32`,
/// which has at most ten decimal digits.
pub const MAX_DIGITS: u32 = 10;

/// Ten to the power `n`.
pub open spec fn pow10(n: nat) -> nat
    decreases n,
{
    if n == 0 {
        1
    } else {
        10 * pow10((n - 1) as nat)
    }
}

/// The decimal digit of `value` that stands `place` positions left of the
/// units.
pub open spec fn decimal_digit(value: u32, place: nat) -> u32 {
    ((value as nat / pow10(place)) % 10) as u32
}

/// Digit `index` of a guess read as a number of `digits` decimal digits,
/// counted from the most significant one. Digits of the guess beyond the
/// first `digits` are not looked at.
pub open spec fn guess_digit(guess: u32, digits: u32, index: int) -> u32 {
    decimal_digit(guess, (digits - 1 - index) as nat)
}

/// Byte `k` of `value` in big-endian order.
pub open spec fn be_byte(value: u32, k: int) -> u8 {
    if k == 0 {
        (value / 0x100_0000) as u8
    } else if k == 1 {
        (value / 0x1_0000 % 0x100) as u8
    } else if k == 2 {
        (value / 0x100 % 0x100) as u8
    } else {
        (value % 0x100) as u8
    }
}

/// `value` as a field element: 28 zero bytes, then its four bytes in
/// big-endian order.
pub open spec fn field_of(value: u32) -> Seq<u8> {
    Seq::new(
        32,
        |i: int|
            if i < 28 {
                0u8
            } else {
                be_byte(value, i - 28)
            },
    )
}

/// The field elements of the first `count` digits of a guess.
pub open spec fn guess_fields_upto(guess: u32, digits: u32, count: nat) -> Seq<u8> {
    Seq::new(32 * count, |i: int| field_of(guess_digit(guess, digits, i / 32))[i % 32])
}

/// The field elements of all `digits` digits of a guess.
pub open spec fn guess_fields(guess: u32, digits: u32) -> Seq<u8> {
    guess_fields_upto(guess, digits, digits as nat)
}

/// The public inputs of a proof by the player who committed to `commitment`,
/// about the opponent's `guess`.
pub open spec fn public_inputs_spec(
    digits: u32,
    guess: u32,
    commitment: Seq<u8>,
    acertos: u32,
    permutados: u32,
    erros: u32,
) -> Seq<u8> {
    guess_fields(guess, digits) + commitment + field_of(acertos) + field_of(permutados) + field_of(
        erros,
    )
}

proof fn lemma_pow10_positive(n: nat)
    ensures
        pow10(n) > 0,
    decreases n,
{
    if n > 0 {
        lemma_pow10_positive((n - 1) as nat);
    }
}

/// The decimal digit of `value` that stands `place` positions left of the
/// units.
pub fn digit_at(value: u32, place: u32) -> (digit: u32)
    ensures
        digit == decimal_digit(value, place as nat),
        digit < 10,
{
    let mut rest: u32 = value;
    let mut i: u32 = 0;
    assert(pow10(0) == 1);
    while i < place
        invariant
            i <= place,
            rest as nat == value as nat / pow10(i as nat),
        decreases place - i,
    {
        proof {
            lemma_pow10_positive(i as nat);
            lemma_div_denominator(value as int, pow10(i as nat) as int, 10);
            assert(pow10((i + 1) as nat) == 10 * pow10(i as nat));
            assert(pow10(i as nat) * 10 == 10 * pow10(i as nat)) by (nonlinear_arith);
        }
        rest = rest / 10;
        i += 1;
    }
    rest % 10
}

/// Appends `value` as one field element.
pub fn push_field(out: &mut Vec<u8>, value: u32)
    ensures
        final(out)@ == old(out)@ + field_of(value),
{
    let mut i: usize = 0;
    while i < 28
        invariant
            i <= 28,
            out@.len() == old(out)@.len() + i,
            forall|j: int| 0 <= j < old(out)@.len() ==> out@[j] == old(out)@[j],
            forall|j: int| old(out)@.len() <= j < out@.len() ==> out@[j] == 0u8,
        decreases 28 - i,
    {
        out.push(0u8);
        i += 1;
    }
    out.push((value / 0x100_0000) as u8);
    out.push((value / 0x1_0000 % 0x100) as u8);
    out.push((value / 0x100 % 0x100) as u8);
    out.push((value % 0x100) as u8);
    assert(out@ =~= old(out)@ + field_of(value));
}

/// Appends the 32 bytes of a commitment.
pub fn push_commitment(out: &mut Vec<u8>, commitment: &[u8; 32])
    ensures
        final(out)@ == old(out)@ + commitment@,
{
    let mut i: usize = 0;
    while i < 32
        invariant
            i <= 32,
            out@ == old(out)@ + commitment@.subrange(0, i as int),
        decreases 32 - i,
    {
        out.push(commitment[i]);
        assert(out@ =~= old(out)@ + commitment@.subrange(0, i + 1));
        i += 1;
    }
    assert(commitment@.subrange(0, 32) =~= commitment@);
}

/// Builds the public inputs of a proof by the player who committed to
/// `commitment`, about the opponent's `guess`: one field element for each
/// of the `digits` digits of the guess, most significant first, then the
/// commitment, then `acertos`, `permutados` and `erros`.
pub fn public_inputs(
    digits: u32,
    guess: u32,
    commitment: &[u8; 32],
    acertos: u32,
    permutados: u32,
    erros: u32,
) -> (out: Vec<u8>)
    ensures
        out@ == public_inputs_spec(digits, guess, commitment@, acertos, permutados, erros),
        out@.len() == FIELD_BYTES * (digits + 4),
{
    let mut out: Vec<u8> = Vec::new();
    let mut k: u32 = 0;
    while k < digits
        invariant
            k <= digits,
            out@ == guess_fields_upto(guess, digits, k as nat),
        decreases digits - k,
    {
        let digit: u32 = digit_at(guess, digits - 1 - k);
        push_field(&mut out, digit);
        assert(out@ =~= guess_fields_upto(guess, digits, (k + 1) as nat));
        k += 1;
    }
    push_commitment(&mut out, commitment);
    push_field(&mut out, acertos);
    push_field(&mut out, permutados);
    push_field(&mut out, erros);
    out
}

} // verus!
