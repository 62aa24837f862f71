//! Why a machine description is refused.

use vstd::prelude::*;
use vstd::string::*;

verus! {

/// The reason for which a document yields no index. Every one of them ends
/// the parse: there is no partial result.
#[derive(Debug, PartialEq, Eq)]
pub enum ParseError {
    /// An operand's `type` names no operand type; the string is the one found.
    UnknownOperandType(String),
    /// An operand's `input` or `output` is neither `true` nor `false`; the
    /// string is the one found.
    InvalidFlag(String),
    /// The value of an attribute that is read is not valid UTF-8.
    InvalidText,
    /// An instruction element without a `name`.
    MissingName,
    /// An operand element without a `type`.
    MissingType,
    /// An attribute of an element that is read is not well-formed markup.
    MalformedAttribute,
    /// The document is not well-formed markup.
    MalformedMarkup,
}

/// A `ParseError` in specifications.
pub enum ParseErrorView {
    UnknownOperandType(Seq<char>),
    InvalidFlag(Seq<char>),
    InvalidText,
    MissingName,
    MissingType,
    MalformedAttribute,
    MalformedMarkup,
}

impl View for ParseError {
    type V = ParseErrorView;

    open spec fn view(&self) -> ParseErrorView {
        match self {
            ParseError::UnknownOperandType(token) => ParseErrorView::UnknownOperandType(token@),
            ParseError::InvalidFlag(value) => ParseErrorView::InvalidFlag(value@),
            ParseError::InvalidText => ParseErrorView::InvalidText,
            ParseError::MissingName => ParseErrorView::MissingName,
            ParseError::MissingType => ParseErrorView::MissingType,
            ParseError::MalformedAttribute => ParseErrorView::MalformedAttribute,
            ParseError::MalformedMarkup => ParseErrorView::MalformedMarkup,
        }
    }
}

impl ParseErrorView {
    /// The sentence that describes the error.
    pub open spec fn message(self) -> Seq<char> {
        match self {
            ParseErrorView::UnknownOperandType(token) => {
                "Unknown value for operand type -- Variant: "@ + token
            },
            ParseErrorView::InvalidFlag(value) => {
                "Unknown value for operand flag -- Value: "@ + value
            },
            ParseErrorView::InvalidText => "Attribute value is not valid UTF-8"@,
            ParseErrorView::MissingName => "Instruction without a name"@,
            ParseErrorView::MissingType => "Operand without a type"@,
            ParseErrorView::MalformedAttribute => "Malformed attribute"@,
            ParseErrorView::MalformedMarkup => "Malformed markup"@,
        }
    }
}

impl ParseError {
    /// The sentence that describes the error, naming the offending string
    /// where there is one.
    pub fn message(&self) -> (text: String)
        ensures
            text@ == self@.message(),
    {
        match self {
            ParseError::UnknownOperandType(token) => {
                String::from_str("Unknown value for operand type -- Variant: ").concat(
                    token.as_str(),
                )
            },
            ParseError::InvalidFlag(value) => {
                String::from_str("Unknown value for operand flag -- Value: ").concat(
                    value.as_str(),
                )
            },
            ParseError::InvalidText => String::from_str("Attribute value is not valid UTF-8"),
            ParseError::MissingName => String::from_str("Instruction without a name"),
            ParseError::MissingType => String::from_str("Operand without a type"),
            ParseError::MalformedAttribute => String::from_str("Malformed attribute"),
            ParseError::MalformedMarkup => String::from_str("Malformed markup"),
        }
    }
}

} // verus!
