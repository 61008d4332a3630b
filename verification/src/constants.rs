//! The field-prime descriptor: the prime is selected by name and parsed
//! into a big integer by the arbitrary-precision arithmetic crate.
use vstd::prelude::*;

use crate::text::string_of;

verus! {

/// The value that `num_bigint::BigInt::parse_bytes` returns for a decimal
/// digit string: a function of the digits alone.
pub uninterp spec fn bigint_from_decimal(s: Seq<char>) -> num_bigint::BigInt;

/// A non-empty string of ASCII decimal digits.
pub open spec fn is_decimal_digits(s: Seq<char>) -> bool {
    s.len() > 0 && forall|j: int| 0 <= j < s.len() ==> '0' <= #[trigger] s[j] <= '9'
}

#[verifier::external_type_specification]
#[verifier::external_body]
pub struct ExBigInt(num_bigint::BigInt);

/// Relies on num_bigint::BigInt::clone: the clone carries the sign and the
/// digits of the original, an equal value.
pub assume_specification[ <num_bigint::BigInt as Clone>::clone ](x: &num_bigint::BigInt) -> (r:
    num_bigint::BigInt)
    ensures
        r == *x,
;

/// Relies on num_bigint::BigInt::parse_bytes with radix ten: on a non-empty
/// ASCII decimal digit string it returns the parsed integer, a function of
/// the digits alone.
#[verifier::external_body]
fn parse_bigint_decimal(s: &str) -> (r: Option<num_bigint::BigInt>)
    ensures
        is_decimal_digits(s@) ==> r == Some(bigint_from_decimal(s@)),
{
    num_bigint::BigInt::parse_bytes(s.as_bytes(), 10)
}

/// The prime of the circuit's underlying finite field.
pub struct UsefulConstants {
    p: num_bigint::BigInt,
}

impl UsefulConstants {
    /// The held prime.
    pub closed spec fn spec_p(&self) -> num_bigint::BigInt {
        self.p
    }
}

impl Clone for UsefulConstants {
    fn clone(&self) -> (r: Self)
        ensures
            r.spec_p() == self.spec_p(),
    {
        UsefulConstants { p: self.p.clone() }
    }
}

impl UsefulConstants {
    /// Selects the prime by its name; only the Mersenne prime of the
    /// thirty-first power is known here.
    pub fn new(possible_prime: &String) -> (r: UsefulConstants)
        requires
            possible_prime@ == "m31"@,
        ensures
            r.spec_p() == bigint_from_decimal("2147483647"@),
    {
        let key = string_of("m31");
        let prime_to_use = if possible_prime.eq(&key) {
            "2147483647"
        } else {
            vstd::pervasive::unreached()
        };
        proof {
            reveal_strlit("2147483647");
            assert(is_decimal_digits("2147483647"@));
        }
        match parse_bigint_decimal(prime_to_use) {
            Some(p) => UsefulConstants { p },
            None => vstd::pervasive::unreached(),
        }
    }

    pub fn get_p(&self) -> (r: &num_bigint::BigInt)
        ensures
            *r == self.spec_p(),
    {
        &self.p
    }
}

} // verus!
