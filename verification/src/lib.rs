//! A small declarative-layout library for 2D screens of widgets.
//!
//! A screen is described in a line-oriented text format; the parser turns the
//! text into a table of controls, the dock resolver turns each control's
//! anchor expression into an absolute top-left position, and the interaction
//! module drives a button's visual state from pointer input.  Positions are
//! whole pixels in a coordinate system centred on the screen's middle, with x
//! growing to the right and y growing upward.

use vstd::prelude::*;

pub mod color_table;
pub mod colors;
pub mod controls;
pub mod dock;
pub mod interaction;
pub mod parser;
pub mod shapes;
pub mod text;

verus! {

/// What can go wrong while loading a screen: malformed text, a dock
/// reference to a control that does not exist, an anchor token outside the
/// nine-point set, a field that should be numeric and is not, a dock chain
/// that comes back to itself, or a resolved position that leaves the pixel
/// range this library works in.  The last two have no counterpart in the
/// text format itself; they replace unbounded recursion and silent wraparound
/// with definite failures.
#[derive(Debug)]
pub enum UiError {
    FormatError { line_number: usize, line: String },
    UnresolvedReferenceError { name: String },
    InvalidAnchorError { token: String },
    NumericParseError { text: String },
    DockFormatError { text: String },
    CyclicDockError { name: String },
    CoordinateRangeError { name: String },
}

/// The mathematical shadow of `UiError`, used by the spec functions.
pub ghost enum ErrorModel {
    Format { line_number: int, line: Seq<char> },
    Unresolved { name: Seq<char> },
    InvalidAnchor { token: Seq<char> },
    Numeric { text: Seq<char> },
    DockFormat { text: Seq<char> },
    Cyclic { name: Seq<char> },
    CoordinateRange { name: Seq<char> },
}

impl View for UiError {
    type V = ErrorModel;

    open spec fn view(&self) -> ErrorModel {
        match self {
            UiError::FormatError { line_number, line } => ErrorModel::Format {
                line_number: *line_number as int,
                line: line@,
            },
            UiError::UnresolvedReferenceError { name } => ErrorModel::Unresolved { name: name@ },
            UiError::InvalidAnchorError { token } => ErrorModel::InvalidAnchor { token: token@ },
            UiError::NumericParseError { text } => ErrorModel::Numeric { text: text@ },
            UiError::DockFormatError { text } => ErrorModel::DockFormat { text: text@ },
            UiError::CyclicDockError { name } => ErrorModel::Cyclic { name: name@ },
            UiError::CoordinateRangeError { name } => ErrorModel::CoordinateRange { name: name@ },
        }
    }
}

impl UiError {
    /// A short human-readable description.
    pub fn describe(&self) -> String {
        match self {
            UiError::FormatError { line_number: _, line } => line.clone(),
            UiError::UnresolvedReferenceError { name } => name.clone(),
            UiError::InvalidAnchorError { token } => token.clone(),
            UiError::NumericParseError { text } => text.clone(),
            UiError::DockFormatError { text } => text.clone(),
            UiError::CyclicDockError { name } => name.clone(),
            UiError::CoordinateRangeError { name } => name.clone(),
        }
    }
}

} // verus!
