//! Why a generation request fails.

use vstd::prelude::*;
use vstd::string::*;

verus! {

/// The declaration is not a single-field wrapper.
#[derive(Clone, Copy, Debug, PartialEq, Eq, Structural)]
pub enum ShapeError {
    /// The declaration is an enum or a union.
    NotAStruct,
    /// The declaration is a struct, but not a tuple struct with one field.
    NotNewtype,
}

/// A failed generation request. Nothing is emitted for it.
#[derive(Clone, Debug, PartialEq, Eq)]
pub enum GenerationError {
    /// The declaration has the wrong shape.
    Shape(ShapeError),
    /// A requested flag names no optional capability.
    UnknownCapability {
        /// The flag as it was written.
        flag: String,
        /// Where the flag stands in the list of requested flags.
        position: usize,
    },
}

/// A failed generation request as a mathematical value.
pub enum GenerationErrorView {
    Shape(ShapeError),
    UnknownCapability { flag: Seq<char>, position: nat },
}

impl View for GenerationError {
    type V = GenerationErrorView;

    open spec fn view(&self) -> GenerationErrorView {
        match *self {
            GenerationError::Shape(shape) => GenerationErrorView::Shape(shape),
            GenerationError::UnknownCapability { flag, position } => GenerationErrorView::UnknownCapability {
                flag: flag@,
                position: position as nat,
            },
        }
    }
}

pub const NOT_A_STRUCT: &'static str = "derive(Branded) can only be used on structs";

pub const NOT_NEWTYPE: &'static str = "struct must have exactly one field (newtype pattern)";

impl GenerationErrorView {
    /// The message that reports the failure.
    pub open spec fn message(self) -> Seq<char> {
        match self {
            GenerationErrorView::Shape(ShapeError::NotAStruct) => NOT_A_STRUCT@,
            GenerationErrorView::Shape(ShapeError::NotNewtype) => NOT_NEWTYPE@,
            GenerationErrorView::UnknownCapability { flag, .. } => "unknown capability `"@ + flag
                + "`: expected `serde`, `sqlx` or `uuid`"@,
        }
    }
}

impl GenerationError {
    /// Whether the failure lies in the declaration's shape.
    pub fn is_shape_error(&self) -> (shape: bool)
        ensures
            shape == (self@ is Shape),
    {
        match self {
            GenerationError::Shape(_) => true,
            GenerationError::UnknownCapability { .. } => false,
        }
    }

    /// Writes the message that reports the failure.
    pub fn message(&self) -> (message: String)
        ensures
            message@ == self@.message(),
    {
        match self {
            GenerationError::Shape(ShapeError::NotAStruct) => String::from_str(NOT_A_STRUCT),
            GenerationError::Shape(ShapeError::NotNewtype) => String::from_str(NOT_NEWTYPE),
            GenerationError::UnknownCapability { flag, .. } => {
                let mut message = String::from_str("unknown capability `");
                message.append(flag.as_str());
                message.append("`: expected `serde`, `sqlx` or `uuid`");
                message
            },
        }
    }
}

} // verus!
