//! Universally unique identifiers as 128-bit numbers, and their text.

use vstd::arithmetic::power::*;
use vstd::prelude::*;

verus! {

/// What [`uuid::Uuid::parse_str`] reads from a text.
pub uninterp spec fn uuid_parsed(text: Seq<char>) -> Option<u128>;

/// The hexadecimal digit of an identifier at one of its 32 places, the most
/// significant first.
pub open spec fn uuid_digit(uuid: u128, place: int) -> char {
    crate::text::hex_digit((uuid as int / pow(16, (31 - place) as nat)) % 16)
}

/// The text of an identifier: its digits in groups of eight, four, four, four
/// and twelve, with a hyphen between the groups.
pub open spec fn uuid_hyphenated(uuid: u128) -> Seq<char> {
    Seq::new(
        36,
        |i: int|
            if i == 8 || i == 13 || i == 18 || i == 23 {
                '-'
            } else if i < 8 {
                uuid_digit(uuid, i)
            } else if i < 13 {
                uuid_digit(uuid, i - 1)
            } else if i < 18 {
                uuid_digit(uuid, i - 2)
            } else if i < 23 {
                uuid_digit(uuid, i - 3)
            } else {
                uuid_digit(uuid, i - 4)
            },
    )
}

/// Calls [`uuid::Uuid::parse_str`], which reads an identifier from any of its
/// accepted notations. The contract names the result, `None` standing for the
/// error.
#[verifier::external_body]
pub(crate) fn parse_uuid(text: &str) -> (uuid: Option<u128>)
    ensures
        uuid == uuid_parsed(text@),
{
    uuid::Uuid::parse_str(text).ok().map(|uuid| uuid.as_u128())
}

/// Calls the `Display` of [`uuid::Uuid`], which writes the lowercase
/// hyphenated notation. The contract states that text, and that
/// [`uuid::Uuid::parse_str`] reads the same identifier back from it.
#[verifier::external_body]
pub(crate) fn uuid_text(uuid: u128) -> (text: String)
    ensures
        text@ == uuid_hyphenated(uuid),
        uuid_parsed(text@) == Some(uuid),
{
    uuid::Uuid::from_u128(uuid).to_string()
}

/// The place in the text of an identifier at which one of its digits stands.
spec fn text_place(place: int) -> int {
    if place < 8 {
        place
    } else if place < 12 {
        place + 1
    } else if place < 16 {
        place + 2
    } else if place < 20 {
        place + 3
    } else {
        place + 4
    }
}

proof fn lemma_leading_digits(a: u128, b: u128, left: nat)
    requires
        uuid_hyphenated(a) == uuid_hyphenated(b),
        left <= 32,
    ensures
        a as int / pow(16, left) == b as int / pow(16, left),
    decreases 32 - left,
{
    lemma_pow_positive(16, left);
    if left == 32 {
        assert(pow(16, 32) == 0x100000000000000000000000000000000int) by {
            reveal_with_fuel(pow, 9);
            assert(pow(16, 8) == 0x100000000int);
            lemma_pow_adds(16, 8, 8);
            let p = pow(16, 8);
            assert(p * p == 0x10000000000000000int) by (nonlinear_arith)
                requires
                    p == 0x100000000int,
            ;
            lemma_pow_adds(16, 16, 16);
            let q = pow(16, 16);
            assert(q * q == 0x100000000000000000000000000000000int) by (nonlinear_arith)
                requires
                    q == 0x10000000000000000int,
            ;
        }
        vstd::arithmetic::div_mod::lemma_basic_div(a as int, pow(16, 32));
        vstd::arithmetic::div_mod::lemma_basic_div(b as int, pow(16, 32));
    } else {
        lemma_leading_digits(a, b, left + 1);
        let place: int = 31 - left;
        let i = text_place(place);
        assert(uuid_hyphenated(a)[i] == uuid_hyphenated(b)[i]);
        assert(i != 8 && i != 13 && i != 18 && i != 23);
        assert(uuid_hyphenated(a)[i] == uuid_digit(a, place));
        assert(uuid_hyphenated(b)[i] == uuid_digit(b, place));
        let x = a as int / pow(16, left);
        let y = b as int / pow(16, left);
        assert(x % 16 == y % 16);
        reveal_with_fuel(pow, 1);
        assert(pow(16, left + 1) == 16 * pow(16, left)) by {
            lemma_pow_adds(16, 1, left);
            lemma_pow1(16);
        }
        vstd::arithmetic::mul::lemma_mul_is_commutative(16, pow(16, left));
        vstd::arithmetic::div_mod::lemma_div_denominator(a as int, pow(16, left), 16);
        vstd::arithmetic::div_mod::lemma_div_denominator(b as int, pow(16, left), 16);
        assert(x / 16 == y / 16);
        vstd::arithmetic::div_mod::lemma_fundamental_div_mod(x, 16);
        vstd::arithmetic::div_mod::lemma_fundamental_div_mod(y, 16);
    }
}

/// No two identifiers have the same text.
pub proof fn law_identifiers_have_their_own_text(a: u128, b: u128)
    requires
        uuid_hyphenated(a) == uuid_hyphenated(b),
    ensures
        a == b,
{
    lemma_leading_digits(a, b, 0);
    lemma_pow0(16);
}

} // verus!
