//! The reading interpreter: from a decoded record to a named quantity.
//!
//! Values stay in the sensor's raw integer units here; the conversion of a
//! temperature to degrees Celsius is a floating-point affine map,
//! `raw / 16.0 - 273.15`, applied by the program that publishes the reading.

use vstd::prelude::*;
use vstd::string::*;
use crate::frame::Record;
use crate::text::{hex2, push_hex2};

verus! {

/// Opcode of a temperature frame.
pub const OP_TEMP: u8 = 0x42;

/// Opcode of a CO2 concentration frame.
pub const OP_CO2: u8 = 0x50;

/// A quantity that the sensor is known to report, in raw units.
#[derive(Clone, Copy, Debug, PartialEq, Eq, Structural)]
pub enum Value {
    /// CO2 concentration, in parts per million.
    CO2(u16),
    /// Temperature, in sixteenths of a kelvin.
    Temp(u16),
}

impl Value {
    pub open spec fn spec_name(self) -> Seq<char> {
        match self {
            Value::CO2(_) => "co2"@,
            Value::Temp(_) => "temp"@,
        }
    }

    /// The name under which the quantity is published.
    pub fn name(&self) -> (r: &'static str)
        ensures
            r@ == self.spec_name(),
    {
        match self {
            Value::CO2(_) => "co2",
            Value::Temp(_) => "temp",
        }
    }
}

impl Record {
    pub open spec fn spec_decode(self) -> Option<Value> {
        if self.op == OP_TEMP {
            Some(Value::Temp(self.low))
        } else if self.op == OP_CO2 {
            Some(Value::CO2(self.low))
        } else {
            None
        }
    }

    /// The known quantity that this record carries, or `None` for an opcode
    /// outside the table.
    pub fn decode(&self) -> (r: Option<Value>)
        ensures
            r == self.spec_decode(),
    {
        match self.op {
            OP_TEMP => Some(Value::Temp(self.low)),
            OP_CO2 => Some(Value::CO2(self.low)),
            _ => None,
        }
    }
}

/// The meaning of one record: a known quantity, or an unknown opcode with its
/// payload taken as a plain number.
#[derive(Clone, Copy, Debug, PartialEq, Eq, Structural)]
pub enum Reading {
    Known(Value),
    Unknown { op: u8, raw: u16 },
}

pub open spec fn spec_interpret(rec: Record) -> Reading {
    match rec.spec_decode() {
        Some(v) => Reading::Known(v),
        None => Reading::Unknown { op: rec.op, raw: rec.low },
    }
}

/// Interprets a record. Every opcode maps to a reading.
pub fn interpret(rec: &Record) -> (r: Reading)
    ensures
        r == spec_interpret(*rec),
{
    match rec.decode() {
        Some(v) => Reading::Known(v),
        None => Reading::Unknown { op: rec.op, raw: rec.low },
    }
}

impl Reading {
    pub open spec fn spec_name(self) -> Seq<char> {
        match self {
            Reading::Known(v) => v.spec_name(),
            Reading::Unknown { op, .. } => "unknown_0x"@ + hex2(op),
        }
    }

    /// The quantity name: `co2`, `temp`, or `unknown_0x` followed by the
    /// opcode in two lower-case hexadecimal digits.
    pub fn name(&self) -> (r: String)
        ensures
            r@ == self.spec_name(),
    {
        match self {
            Reading::Known(v) => String::from_str(v.name()),
            Reading::Unknown { op, .. } => {
                let mut s = String::from_str("unknown_0x");
                push_hex2(&mut s, *op);
                s
            },
        }
    }
}

} // verus!
