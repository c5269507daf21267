//! Attribute fields of a feature: the stored, typed slots of the native
//! record, and the tagged value an accessor hands back to its caller.

use vstd::prelude::*;

verus! {

/// The payload stored in one field of the native record, tagged with the
/// field's declared type.
///
/// Real-valued fields carry the IEEE-754 bit pattern of the stored
/// double-precision number. The accessor never inspects or computes with the
/// number; carrying the bits unchanged is what makes the "bit-equal" reading
/// guarantee statable.
///
/// `Integer` stands for the declared types the accessor does not handle;
/// looking such a field up is a fatal fault, so the lookup's precondition
/// rules it out.
#[derive(Debug)]
pub enum FieldData {
    /// A textual field.
    Text(String),
    /// A real-valued field, as the bit pattern of its double.
    Real(u64),
    /// A declared type outside the two handled kinds.
    Integer(i64),
}

/// One named, typed attribute slot of a feature's record.
#[derive(Debug)]
pub struct Field {
    /// The field's name in the schema.
    pub name: String,
    /// The stored payload, tagged with the declared type.
    pub data: FieldData,
}

/// One scalar attribute value handed back by a field lookup. Immutable once
/// constructed; plain value semantics.
#[derive(Debug)]
pub enum FieldValue {
    /// The value of a textual field.
    StringValue(String),
    /// The value of a real-valued field, as the bit pattern of its double.
    RealValue(u64),
}

impl FieldValue {
    /// The textual payload, meaningful only for `StringValue`.
    pub open spec fn str_value(self) -> String
        recommends
            self is StringValue,
    {
        self->StringValue_0
    }

    /// The stored double's bit pattern, meaningful only for `RealValue`.
    pub open spec fn real_bits(self) -> u64
        recommends
            self is RealValue,
    {
        self->RealValue_0
    }

    /// Extracts the textual payload. Requesting it from the wrong variant is
    /// a variant-mismatch fault, so the wrong variant is ruled out here: this
    /// accessor trusts that the caller knows the schema.
    pub fn as_string(self) -> (r: String)
        requires
            self is StringValue,
        ensures
            r == self.str_value(),
            self == FieldValue::StringValue(r),
    {
        match self {
            FieldValue::StringValue(rv) => rv,
            FieldValue::RealValue(_) => unreached(),
        }
    }

    /// Extracts the stored double's bit pattern. Requesting it from the wrong
    /// variant is a variant-mismatch fault, so the wrong variant is ruled out
    /// here: this accessor trusts that the caller knows the schema.
    pub fn as_real(self) -> (r: u64)
        requires
            self is RealValue,
        ensures
            r == self.real_bits(),
            self == FieldValue::RealValue(r),
    {
        match self {
            FieldValue::RealValue(rv) => rv,
            FieldValue::StringValue(_) => unreached(),
        }
    }
}

} // verus!
