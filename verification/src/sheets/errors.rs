//! What can go wrong between the library and the spreadsheet.
use vstd::prelude::*;
use crate::sheets::value::Value;

verus! {

/// A cell value could not be read as what the row needs.
#[derive(Debug, PartialEq, Eq)]
pub enum DeserializeValueError {
    /// The row has fewer items than needed.
    MissingItem { missing_index: usize, expected_item_count: usize },
    /// The value could not be represented as the wanted type.
    ExtractValue { input_value: Value, output_type: &'static str },
    /// The value is of a kind that does not stand for the wanted type.
    UnexpectedValueType {
        input_value: Value,
        allowed_inputs: &'static str,
        intended_output: &'static str,
    },
    /// A text could not be converted into the wanted type.
    TypeConversion { input: String, output_type: &'static str },
    /// A text is not in the format of the wanted type.
    InvalidFormat { input: String, output_type: &'static str, message: &'static str },
}

/// A value could not be turned into a cell value.
#[derive(Debug, PartialEq, Eq)]
pub enum SerializeValueError {
    ParseError { input: String, message: String },
}

} // verus!
