//! Exact decimal numbers, as the exchange writes prices and quantities.
//!
//! A [`Decimal`] is an integer mantissa and the number of digits that stand
//! after the decimal point. Reading one from text and writing it back is left
//! to the `rust_decimal` crate.

use std::str::FromStr;
use vstd::prelude::*;

verus! {

/// The failure of `rust_decimal` to read a number.
#[verifier::external_type_specification]
#[verifier::external_body]
pub struct ExDecimalError(rust_decimal::Error);

/// The largest number of digits after the decimal point.
pub const MAX_SCALE: u32 = 28;

/// The largest magnitude of a mantissa: 96 bits, all set.
pub const MAX_MANTISSA: i128 = 79_228_162_514_264_337_593_543_950_335;

/// The number `mantissa / 10^scale`.
#[derive(Clone, Copy, Debug, PartialEq, Eq, Hash)]
pub struct Decimal {
    pub mantissa: i128,
    pub scale: u32,
}

/// What `rust_decimal` reads from `text`: the number, or nothing where it
/// rejects the text.
pub uninterp spec fn parsed_decimal(text: Seq<char>) -> Option<Decimal>;

/// What is read from `text`, where it fits the 96-bit mantissa and the scale
/// limit.
pub open spec fn read_from(text: Seq<char>) -> Option<Decimal> {
    match parsed_decimal(text) {
        Some(d) if d.wf() => Some(d),
        _ => None,
    }
}

/// How `rust_decimal` writes the number with this mantissa and scale.
pub uninterp spec fn decimal_text(mantissa: i128, scale: u32) -> Seq<char>;

/// Calls `<rust_decimal::Decimal as FromStr>::from_str` and takes the number
/// apart with `mantissa()` and `scale()`. The contract claims that the outcome
/// is a function of the text alone, and that a number read this way has a
/// scale of at most 28 and a mantissa of at most 96 bits, as every
/// `rust_decimal::Decimal` has.
#[verifier::external_body]
fn read_decimal(text: &str) -> (r: Result<Decimal, rust_decimal::Error>)
    ensures
        match r {
            Ok(d) => parsed_decimal(text@) == Some(d) && d.wf(),
            Err(_) => parsed_decimal(text@) is None,
        },
{
    rust_decimal::Decimal::from_str(text).map(|d| Decimal { mantissa: d.mantissa(), scale: d.scale() })
}

/// Calls `rust_decimal::Decimal::from_i128_with_scale`, which panics on a
/// scale above 28 or a mantissa beyond 96 bits, and then `to_string`. The
/// contract claims only that the text is a function of mantissa and scale.
#[verifier::external_body]
fn write_decimal(mantissa: i128, scale: u32) -> (r: String)
    requires
        scale <= MAX_SCALE,
        -MAX_MANTISSA <= mantissa <= MAX_MANTISSA,
    ensures
        r@ == decimal_text(mantissa, scale),
{
    rust_decimal::Decimal::from_i128_with_scale(mantissa, scale).to_string()
}

impl Decimal {
    /// Whether the number fits the 96-bit mantissa and the scale limit.
    pub open spec fn wf(self) -> bool {
        &&& self.scale <= MAX_SCALE
        &&& -MAX_MANTISSA <= self.mantissa <= MAX_MANTISSA
    }

    /// The number `mantissa / 10^scale`, where it is representable.
    pub fn new(mantissa: i128, scale: u32) -> (r: Option<Decimal>)
        ensures
            r == (if (Decimal { mantissa, scale }).wf() {
                Some(Decimal { mantissa, scale })
            } else {
                None
            }),
    {
        if scale <= MAX_SCALE && -MAX_MANTISSA <= mantissa && mantissa <= MAX_MANTISSA {
            Some(Decimal { mantissa, scale })
        } else {
            None
        }
    }

    /// Whether the number fits the 96-bit mantissa and the scale limit.
    pub fn is_valid(&self) -> (r: bool)
        ensures
            r == self.wf(),
    {
        self.scale <= MAX_SCALE && -MAX_MANTISSA <= self.mantissa && self.mantissa <= MAX_MANTISSA
    }

    /// The whole number `n`.
    pub fn from_u64(n: u64) -> (r: Decimal)
        ensures
            r == (Decimal { mantissa: n as i128, scale: 0 }),
            r.wf(),
    {
        Decimal { mantissa: n as i128, scale: 0 }
    }

    /// The whole number `n`.
    pub fn from_i64(n: i64) -> (r: Decimal)
        ensures
            r == (Decimal { mantissa: n as i128, scale: 0 }),
            r.wf(),
    {
        Decimal { mantissa: n as i128, scale: 0 }
    }

    /// Reads a number in decimal notation.
    pub fn parse(text: &str) -> (r: Option<Decimal>)
        ensures
            r == parsed_decimal(text@),
            r == read_from(text@),
    {
        match read_decimal(text) {
            Ok(d) => Some(d),
            Err(_) => None,
        }
    }

    /// Writes the number in decimal notation.
    pub fn to_text(&self) -> (r: String)
        requires
            self.wf(),
        ensures
            r@ == decimal_text(self.mantissa, self.scale),
    {
        write_decimal(self.mantissa, self.scale)
    }
}

} // verus!
