//! The text by which values of configuration options are shown.

use vstd::prelude::*;

use crate::config_option::{
    flag_of_code, quantity_of_code, GVariantDataType, MeasuredQuantity, MeasuredQuantityFlag,
};
use crate::text::{decimal, i32_to_text, push_decimal, signed_decimal, text_eq, u64_to_text};
use crate::types::SrError;

verus! {

/// The text of a measured quantity and its flag, given by their libsigrok
/// numbers: the quantity's name, a comma and a space, then the flag's name;
/// or the error for a number that names neither.
pub open spec fn quantity_text(mq_type: u32, mq_flag: u64) -> Result<Seq<char>, SrError> {
    match quantity_of_code(mq_type as i32) {
        Err(e) => Err(e),
        Ok(q) => match flag_of_code(mq_flag) {
            Err(e) => Err(e),
            Ok(f) => Ok(q.name() + ", "@ + f.name()),
        },
    }
}

/// Returns the text of a measured quantity and its flag, given by their
/// libsigrok numbers.
pub fn measured_quantity_text(mq_type: u32, mq_flag: u64) -> (r: Result<String, SrError>)
    ensures
        match quantity_text(mq_type, mq_flag) {
            Ok(t) => r matches Ok(s) && s@ == t,
            Err(e) => r == Err::<String, SrError>(e),
        },
{
    let quantity = MeasuredQuantity::try_from(mq_type as i32)?;
    let flag = MeasuredQuantityFlag::try_from(mq_flag)?;
    let mut s = String::from_str(quantity.as_str());
    s.append(", ");
    s.append(flag.as_str());
    Ok(s)
}

/// The text of a key with a list of numbers: the key, then for each number
/// a comma, a space and the number in base ten.
pub open spec fn keyed_values(key: Seq<char>, values: Seq<u64>) -> Seq<char>
    decreases values.len(),
{
    if values.len() == 0 {
        key
    } else {
        keyed_values(key, values.drop_last()) + ", "@ + decimal(values.last() as nat)
    }
}

/// Returns the text of a key with a list of numbers.
pub fn keyed_values_text(key: &str, values: &Vec<u64>) -> (r: String)
    ensures
        r@ == keyed_values(key@, values@),
{
    let mut s = String::from_str(key);
    let mut i: usize = 0;
    while i < values.len()
        invariant
            i <= values@.len(),
            s@ == keyed_values(key@, values@.take(i as int)),
        decreases values.len() - i,
    {
        s.append(", ");
        push_decimal(&mut s, values[i]);
        assert(values@.take(i + 1).drop_last() =~= values@.take(i as int));
        i = i + 1;
    }
    assert(values@.take(values.len() as int) =~= values@);
    s
}


/// What to read out of a libsigrok value so as to show it.
#[derive(Debug, Clone, Copy, PartialEq, Eq, Structural)]
pub enum ReadPlan {
    /// A boolean, as the C library's integer truth value.
    Boolean,
    /// A signed 32-bit integer.
    Int32,
    /// A floating-point number.
    Double,
    /// An unsigned 64-bit integer.
    Uint64,
    /// A string key paired with an array of unsigned 64-bit integers.
    KeyedUint64s,
    /// A measured quantity and its flag.
    Quantity,
    /// A string.
    Text,
    /// Nothing: the value is shown as empty text.
    Nothing,
}

impl GVariantDataType {
    /// Whether the library can show values of this type.
    pub open spec fn is_readable(self) -> bool {
        match self {
            GVariantDataType::Bool
            | GVariantDataType::Float
            | GVariantDataType::Int32
            | GVariantDataType::MQ
            | GVariantDataType::String
            | GVariantDataType::Uint64 => true,
            _ => false,
        }
    }

    /// Returns whether the library can show values of this type.
    pub fn readable(&self) -> (r: bool)
        ensures
            r == self.is_readable(),
    {
        match self {
            GVariantDataType::Bool
            | GVariantDataType::Float
            | GVariantDataType::Int32
            | GVariantDataType::MQ
            | GVariantDataType::String
            | GVariantDataType::Uint64 => true,
            _ => false,
        }
    }
}

/// What to read out of a value of data type `data_type` whose libsigrok
/// type string is `type_string`: an unsigned integer comes either alone
/// ("t") or as a key with an array of integers ("{sv}"); any other shape
/// of it is shown as nothing.
pub open spec fn read_plan_of(data_type: GVariantDataType, type_string: Seq<char>) -> ReadPlan {
    match data_type {
        GVariantDataType::Bool => ReadPlan::Boolean,
        GVariantDataType::Float => ReadPlan::Double,
        GVariantDataType::Int32 => ReadPlan::Int32,
        GVariantDataType::MQ => ReadPlan::Quantity,
        GVariantDataType::String => ReadPlan::Text,
        _ => if type_string == "t"@ {
            ReadPlan::Uint64
        } else if type_string == "{sv}"@ {
            ReadPlan::KeyedUint64s
        } else {
            ReadPlan::Nothing
        },
    }
}

/// Returns what to read out of a value of data type `data_type` whose
/// libsigrok type string is `type_string`.
pub fn read_plan(data_type: GVariantDataType, type_string: &str) -> (r: ReadPlan)
    requires
        data_type.is_readable(),
    ensures
        r == read_plan_of(data_type, type_string@),
{
    match data_type {
        GVariantDataType::Bool => ReadPlan::Boolean,
        GVariantDataType::Float => ReadPlan::Double,
        GVariantDataType::Int32 => ReadPlan::Int32,
        GVariantDataType::MQ => ReadPlan::Quantity,
        GVariantDataType::String => ReadPlan::Text,
        _ => if text_eq(type_string, "t") {
            ReadPlan::Uint64
        } else if text_eq(type_string, "{sv}") {
            ReadPlan::KeyedUint64s
        } else {
            ReadPlan::Nothing
        },
    }
}

/// A value read out of libsigrok, as plain data.
#[derive(Debug, Clone)]
pub enum GValue {
    /// The C library's integer truth value.
    Boolean(i32),
    /// A signed 32-bit integer.
    Int32(i32),
    /// A floating-point number, already written as text.
    Double(String),
    /// An unsigned 64-bit integer.
    Uint64(u64),
    /// A string key and an array of unsigned 64-bit integers.
    KeyedUint64s(String, Vec<u64>),
    /// The numbers of a measured quantity and of its flag.
    Quantity(u32, u64),
    /// A string.
    Text(String),
    /// No value.
    Nothing,
}

/// Returns the text by which a value read out of libsigrok is shown:
/// integers (the truth value too) in base ten, a key with its numbers, a
/// measured quantity by its names, strings as they are, nothing as empty.
pub fn value_text(value: &GValue) -> (r: Result<String, SrError>)
    ensures
        match value {
            GValue::Boolean(b) => r matches Ok(s) && s@ == signed_decimal(*b as int),
            GValue::Int32(v) => r matches Ok(s) && s@ == signed_decimal(*v as int),
            GValue::Double(t) => r matches Ok(s) && s@ == t@,
            GValue::Uint64(v) => r matches Ok(s) && s@ == decimal(*v as nat),
            GValue::KeyedUint64s(key, values) => r matches Ok(s) && s@ == keyed_values(
                key@,
                values@,
            ),
            GValue::Quantity(q, f) => match quantity_text(*q, *f) {
                Ok(t) => r matches Ok(s) && s@ == t,
                Err(e) => r == Err::<String, SrError>(e),
            },
            GValue::Text(t) => r matches Ok(s) && s@ == t@,
            GValue::Nothing => r matches Ok(s) && s@ == Seq::<char>::empty(),
        },
{
    match value {
        GValue::Boolean(b) => Ok(i32_to_text(*b)),
        GValue::Int32(v) => Ok(i32_to_text(*v)),
        GValue::Double(t) => Ok(t.clone()),
        GValue::Uint64(v) => Ok(u64_to_text(*v)),
        GValue::KeyedUint64s(key, values) => Ok(keyed_values_text(key.as_str(), values)),
        GValue::Quantity(q, f) => measured_quantity_text(*q, *f),
        GValue::Text(t) => Ok(t.clone()),
        GValue::Nothing => Ok(String::new()),
    }
}

} // verus!
