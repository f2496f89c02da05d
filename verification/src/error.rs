//! The errors of decoding.

use crate::decoder::ifd::{Value, ValueView};
use crate::Mode;
use vstd::prelude::*;
use vstd::string::StringExecFns;

verus! {

/// Why the byte source could not deliver.
#[derive(Debug, Clone, Copy, PartialEq, Eq, Structural, Hash)]
pub enum MrcIoError {
    /// The source ended before the bytes asked for had been read.
    ShortRead,
    /// The position asked for lies outside the source.
    SeekFailed,
}

/// The image is well formed but asks for something the decoder does not do.
#[derive(Debug, Clone, Copy, PartialEq, Eq, Structural, Hash)]
pub enum MrcUnsupportedError {
    /// A mode that has no pixel layout of its own.
    UnsupportedMode(Mode),
    /// A data type that cannot be handed out in the form asked for.
    UnsupportedDataType,
    /// A mode code that stands for no known mode.
    UnrecognizedMode(i32),
}

/// The image is not formatted properly.
///
/// Either the program that wrote the image misbehaved or the file has been
/// corrupted.
#[derive(Debug, PartialEq)]
pub enum MrcFormatError {
    ByteExpected(Value),
    UnsignedIntegerExpected(Value),
    SignedIntegerExpected(Value),
    Format(String),
}

/// What a [`MrcFormatError`] holds, as a mathematical value.
pub ghost enum MrcFormatErrorView {
    ByteExpected(ValueView),
    UnsignedIntegerExpected(ValueView),
    SignedIntegerExpected(ValueView),
    Format(Seq<char>),
}

impl View for MrcFormatError {
    type V = MrcFormatErrorView;

    open spec fn view(&self) -> MrcFormatErrorView {
        match self {
            MrcFormatError::ByteExpected(v) => MrcFormatErrorView::ByteExpected(v@),
            MrcFormatError::UnsignedIntegerExpected(v) => {
                MrcFormatErrorView::UnsignedIntegerExpected(v@)
            },
            MrcFormatError::SignedIntegerExpected(v) => {
                MrcFormatErrorView::SignedIntegerExpected(v@)
            },
            MrcFormatError::Format(text) => MrcFormatErrorView::Format(text@),
        }
    }
}

impl Clone for MrcFormatError {
    fn clone(&self) -> (copy: MrcFormatError)
        ensures
            copy@ == self@,
    {
        match self {
            MrcFormatError::ByteExpected(v) => MrcFormatError::ByteExpected(v.clone()),
            MrcFormatError::UnsignedIntegerExpected(v) => {
                MrcFormatError::UnsignedIntegerExpected(v.clone())
            },
            MrcFormatError::SignedIntegerExpected(v) => {
                MrcFormatError::SignedIntegerExpected(v.clone())
            },
            MrcFormatError::Format(text) => MrcFormatError::Format(text.clone()),
        }
    }
}

/// The text that `{:?}` gives for a value.
pub uninterp spec fn value_debug_text(value: ValueView) -> Seq<char>;

/// The text that `{:?}` gives for a string: the string between double
/// quotes, with its special characters escaped.
pub uninterp spec fn str_debug_text(text: Seq<char>) -> Seq<char>;

/// Formats a value as the derived `Debug` does, through `format!`. The
/// contract only gives that text its name: it depends on nothing but the
/// value.
#[verifier::external_body]
fn debug_value(value: &Value) -> (text: String)
    ensures
        text@ == value_debug_text(value@),
{
    format!("{:?}", value)
}

/// Formats a string as `Debug` for `str` does, through `format!`. The
/// contract only gives that text its name: it depends on nothing but the
/// string.
#[verifier::external_body]
fn debug_str(text: &str) -> (quoted: String)
    ensures
        quoted@ == str_debug_text(text@),
{
    format!("{:?}", text)
}

impl MrcFormatError {
    /// The sentence that describes a format error.
    pub open spec fn spec_message(error: MrcFormatErrorView) -> Seq<char> {
        match error {
            MrcFormatErrorView::ByteExpected(v) => "Expected byte, "@ + value_debug_text(v)
                + " found."@,
            MrcFormatErrorView::UnsignedIntegerExpected(v) => "Expected unsigned integer, "@
                + value_debug_text(v) + " found."@,
            MrcFormatErrorView::SignedIntegerExpected(v) => "Expected signed integer, "@
                + value_debug_text(v) + " found."@,
            MrcFormatErrorView::Format(text) => "Invalid format: "@ + str_debug_text(text) + "."@,
        }
    }

    /// Describes the error in a sentence.
    pub fn message(&self) -> (text: String)
        ensures
            text@ == Self::spec_message(self@),
    {
        match self {
            MrcFormatError::ByteExpected(v) => sentence(
                "Expected byte, ",
                debug_value(v),
                " found.",
            ),
            MrcFormatError::UnsignedIntegerExpected(v) => sentence(
                "Expected unsigned integer, ",
                debug_value(v),
                " found.",
            ),
            MrcFormatError::SignedIntegerExpected(v) => sentence(
                "Expected signed integer, ",
                debug_value(v),
                " found.",
            ),
            MrcFormatError::Format(text) => sentence(
                "Invalid format: ",
                debug_str(text.as_str()),
                ".",
            ),
        }
    }
}

/// Puts a text between two fixed parts.
fn sentence(before: &str, middle: String, after: &str) -> (text: String)
    ensures
        text@ == before@ + middle@ + after@,
{
    let mut text = String::from_str(before);
    text.append(middle.as_str());
    text.append(after);
    text
}

/// The errors of decoding.
#[derive(Debug, PartialEq)]
pub enum MrcError {
    /// The image is not formatted properly.
    FormatError(MrcFormatError),
    /// The decoder does not support what the image asks for.
    UnsupportedError(MrcUnsupportedError),
    /// The byte source failed while the image was read.
    IoError(MrcIoError),
    /// A limit of the decoder would be exceeded.
    LimitsExceeded,
}

/// What a [`MrcError`] holds, as a mathematical value.
pub ghost enum MrcErrorView {
    FormatError(MrcFormatErrorView),
    UnsupportedError(MrcUnsupportedError),
    IoError(MrcIoError),
    LimitsExceeded,
}

impl View for MrcError {
    type V = MrcErrorView;

    open spec fn view(&self) -> MrcErrorView {
        match self {
            MrcError::FormatError(e) => MrcErrorView::FormatError(e@),
            MrcError::UnsupportedError(e) => MrcErrorView::UnsupportedError(*e),
            MrcError::IoError(e) => MrcErrorView::IoError(*e),
            MrcError::LimitsExceeded => MrcErrorView::LimitsExceeded,
        }
    }
}

impl Clone for MrcError {
    fn clone(&self) -> (copy: MrcError)
        ensures
            copy@ == self@,
    {
        match self {
            MrcError::FormatError(e) => MrcError::FormatError(e.clone()),
            MrcError::UnsupportedError(e) => MrcError::UnsupportedError(*e),
            MrcError::IoError(e) => MrcError::IoError(*e),
            MrcError::LimitsExceeded => MrcError::LimitsExceeded,
        }
    }
}

/// The result of a decoding step.
pub type MrcResult<T> = Result<T, MrcError>;

} // verus!
