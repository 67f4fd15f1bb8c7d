//! Errors of history and navigation operations.

use vstd::prelude::*;

use crate::dbus::{uuid_text, uuid_to_string};
use crate::text::{chars_to_string, decimal_spec, push_decimal, push_str};

verus! {

/// Why a history or navigation request was refused. Item identifiers are 128-bit UUID values.
#[derive(Clone, Copy, Debug, PartialEq, Eq, Structural)]
pub enum Error {
    EmptyHistory,
    NotFound(u128),
    TextSizeOutOfBounds { len: usize, min: usize, max: usize },
    NavigationBoundary { index: usize, len: usize },
    ActiveIndexOutOfRange { index: usize, len: usize },
}

/// The text that describes an error.
pub open spec fn error_text(e: Error) -> Seq<char> {
    match e {
        Error::EmptyHistory => "history is empty"@,
        Error::NotFound(u) => "item not found: "@ + uuid_text(u),
        Error::TextSizeOutOfBounds { len, min, max } => "text length "@ + decimal_spec(len as nat)
            + " is outside allowed bounds ("@ + decimal_spec(min as nat) + "..="@ + decimal_spec(
            max as nat,
        ) + ")"@,
        Error::NavigationBoundary { index, len } => "navigation at boundary (index "@ + decimal_spec(
            index as nat,
        ) + ", len "@ + decimal_spec(len as nat) + ")"@,
        Error::ActiveIndexOutOfRange { index, len } => "active index "@ + decimal_spec(index as nat)
            + " out of range for history length "@ + decimal_spec(len as nat),
    }
}

impl Error {
    /// The text that describes the error.
    pub fn message(&self) -> (r: String)
        ensures
            r@ == error_text(*self),
    {
        let mut out: Vec<char> = Vec::new();
        match *self {
            Error::EmptyHistory => push_str(&mut out, "history is empty"),
            Error::NotFound(u) => {
                push_str(&mut out, "item not found: ");
                let t = uuid_to_string(u);
                push_str(&mut out, t.as_str());
            },
            Error::TextSizeOutOfBounds { len, min, max } => {
                push_str(&mut out, "text length ");
                push_decimal(&mut out, len as u64);
                push_str(&mut out, " is outside allowed bounds (");
                push_decimal(&mut out, min as u64);
                push_str(&mut out, "..=");
                push_decimal(&mut out, max as u64);
                push_str(&mut out, ")");
            },
            Error::NavigationBoundary { index, len } => {
                push_str(&mut out, "navigation at boundary (index ");
                push_decimal(&mut out, index as u64);
                push_str(&mut out, ", len ");
                push_decimal(&mut out, len as u64);
                push_str(&mut out, ")");
            },
            Error::ActiveIndexOutOfRange { index, len } => {
                push_str(&mut out, "active index ");
                push_decimal(&mut out, index as u64);
                push_str(&mut out, " out of range for history length ");
                push_decimal(&mut out, len as u64);
            },
        }
        chars_to_string(out.as_slice())
    }
}

} // verus!
