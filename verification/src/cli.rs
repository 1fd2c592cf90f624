//! Command-line-facing value types and the Modbus quantity validators.
//!
//! The parsing of the command line itself is the caller's business; what
//! stands here is the serial-line parameter vocabulary and the rules the
//! Modbus specification puts on per-request quantities.

use vstd::prelude::*;
use vstd::string::StringExecFns;

use crate::decimal::{is_u16_numeral, parse_u16, spec_decimal, u16_numeral_value, u64_to_decimal};

verus! {

/// Parity of a serial line.
#[derive(Clone, Copy, PartialEq, Eq, Structural, Debug)]
pub enum Parity {
    NoParity,
    Even,
    Odd,
}

/// Stop bits of a serial line.
#[derive(Clone, Copy, PartialEq, Eq, Structural, Debug)]
pub enum StopBits {
    One,
    Two,
}

/// Data bits of a serial line.
#[derive(Clone, Copy, PartialEq, Eq, Structural, Debug)]
pub enum DataBits {
    Five,
    Six,
    Seven,
    Eight,
}

/// The most coils one read or write request may touch (function codes
/// 01, 05 and 15).
pub const MAX_COIL_QTY: u16 = 2000;

/// The most registers one read or write request may touch (function codes
/// 03, 04, 06 and 16).
pub const MAX_REGISTER_QTY: u16 = 125;

/// The complaint returned when a quantity is not a number at all.
pub open spec fn not_a_number_message(s: Seq<char>) -> Seq<char> {
    "Invalid quantity '"@ + s + "': must be a number"@
}

/// The complaint returned when a coil quantity is outside `1..=2000`.
pub open spec fn coil_range_message(qty: int) -> Seq<char> {
    "Invalid quantity "@ + spec_decimal(qty as nat)
        + ": Modbus specification limits coil operations to 1-2000 coils per request (FC 01/05/15)"@
}

/// The complaint returned when a register quantity is outside `1..=125`.
pub open spec fn register_range_message(qty: int) -> Seq<char> {
    "Invalid quantity "@ + spec_decimal(qty as nat)
        + ": Modbus specification limits register operations to 1-125 registers per request (FC 03/04/06/16)"@
}

/// Validate a coil quantity given as text: the parsed value when it is a
/// number in `1..=2000`, the exact complaint otherwise.
pub fn validate_coil_qty(s: &str) -> (r: Result<u16, String>)
    ensures
        is_u16_numeral(s@) && 1 <= u16_numeral_value(s@) <= MAX_COIL_QTY ==> r == Ok::<u16, String>(
            u16_numeral_value(s@) as u16,
        ),
        !is_u16_numeral(s@) ==> (r matches Err(m) && m@ == not_a_number_message(s@)),
        is_u16_numeral(s@) && !(1 <= u16_numeral_value(s@) <= MAX_COIL_QTY) ==> (r matches Err(m)
            && m@ == coil_range_message(u16_numeral_value(s@))),
{
    match parse_u16(s) {
        Option::None => {
            let mut m = String::from_str("Invalid quantity '");
            m.append(s);
            m.append("': must be a number");
            Err(m)
        },
        Option::Some(qty) => {
            if 1 <= qty && qty <= MAX_COIL_QTY {
                Ok(qty)
            } else {
                let digits = u64_to_decimal(qty as u64);
                let mut m = String::from_str("Invalid quantity ");
                m.append(digits.as_str());
                m.append(
                    ": Modbus specification limits coil operations to 1-2000 coils per request (FC 01/05/15)",
                );
                Err(m)
            }
        },
    }
}

/// Validate a register quantity given as text: the parsed value when it is a
/// number in `1..=125`, the exact complaint otherwise.
pub fn validate_register_qty(s: &str) -> (r: Result<u16, String>)
    ensures
        is_u16_numeral(s@) && 1 <= u16_numeral_value(s@) <= MAX_REGISTER_QTY ==> r == Ok::<
            u16,
            String,
        >(u16_numeral_value(s@) as u16),
        !is_u16_numeral(s@) ==> (r matches Err(m) && m@ == not_a_number_message(s@)),
        is_u16_numeral(s@) && !(1 <= u16_numeral_value(s@) <= MAX_REGISTER_QTY) ==> (r matches Err(
            m,
        ) && m@ == register_range_message(u16_numeral_value(s@))),
{
    match parse_u16(s) {
        Option::None => {
            let mut m = String::from_str("Invalid quantity '");
            m.append(s);
            m.append("': must be a number");
            Err(m)
        },
        Option::Some(qty) => {
            if 1 <= qty && qty <= MAX_REGISTER_QTY {
                Ok(qty)
            } else {
                let digits = u64_to_decimal(qty as u64);
                let mut m = String::from_str("Invalid quantity ");
                m.append(digits.as_str());
                m.append(
                    ": Modbus specification limits register operations to 1-125 registers per request (FC 03/04/06/16)",
                );
                Err(m)
            }
        },
    }
}

} // verus!
