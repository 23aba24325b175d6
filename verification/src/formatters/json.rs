//! The JSON output format: the value itself, pretty-printed. Column
//! inference plays no part here; arrays render as arrays.

use vstd::prelude::*;

use crate::jsontext::pretty_json;
use crate::jsontext::to_pretty_string;
use crate::value::Value;

verus! {

/// The pretty-printing JSON formatter.
pub struct JsonFormatter;

impl JsonFormatter {
    /// Renders the value as pretty-printed JSON with two-space indentation.
    pub fn format(data: &Value) -> (r: String)
        ensures
            r@ == pretty_json(*data, Seq::<char>::empty()),
    {
        to_pretty_string(data)
    }
}

} // verus!
