use mrc::decoder::ifd::Value;
use mrc::error::{MrcError, MrcFormatError, MrcIoError, MrcUnsupportedError};
use mrc::Mode;

#[test]
fn format_error_message_names_the_value() {
    let e = MrcFormatError::UnsignedIntegerExpected(Value::Signed(-5));
    assert_eq!(e.message(), "Expected unsigned integer, Signed(-5) found.");
}

#[test]
fn byte_expected_message() {
    let e = MrcFormatError::ByteExpected(Value::Unsigned(300));
    assert_eq!(e.message(), "Expected byte, Unsigned(300) found.");
}

#[test]
fn signed_integer_expected_message() {
    let e = MrcFormatError::SignedIntegerExpected(Value::Ascii(String::from("x")));
    assert_eq!(e.message(), "Expected signed integer, Ascii(\"x\") found.");
}

#[test]
fn format_message_quotes_the_text() {
    let e = MrcFormatError::Format(String::from("bad \"thing\""));
    assert_eq!(e.message(), "Invalid format: \"bad \\\"thing\\\"\".");
}

#[test]
fn list_value_message() {
    let e = MrcFormatError::ByteExpected(Value::List(vec![Value::Byte(1), Value::Rational(1, 2)]));
    assert_eq!(e.message(), "Expected byte, List([Byte(1), Rational(1, 2)]) found.");
}

#[test]
fn clone_of_a_value_is_equal() {
    let v = Value::List(vec![
        Value::Byte(7),
        Value::Signed(-1),
        Value::SignedBig(-2),
        Value::Unsigned(3),
        Value::UnsignedBig(4),
        Value::Float(0x3F80_0000),
        Value::Double(0x3FF0_0000_0000_0000),
        Value::List(vec![Value::Ascii(String::from("inner"))]),
        Value::Rational(1, 2),
        Value::RationalBig(3, 4),
        Value::SRational(-5, 6),
        Value::SRationalBig(-7, 8),
        Value::Ascii(String::from("text")),
    ]);
    assert_eq!(v.clone(), v);
}

#[test]
fn clone_of_an_error_is_equal() {
    let errors = vec![
        MrcError::FormatError(MrcFormatError::Format(String::from("m"))),
        MrcError::FormatError(MrcFormatError::ByteExpected(Value::Byte(1))),
        MrcError::FormatError(MrcFormatError::SignedIntegerExpected(Value::Unsigned(1))),
        MrcError::FormatError(MrcFormatError::UnsignedIntegerExpected(Value::Signed(-1))),
        MrcError::UnsupportedError(MrcUnsupportedError::UnsupportedMode(Mode::IMOD)),
        MrcError::UnsupportedError(MrcUnsupportedError::UnsupportedDataType),
        MrcError::UnsupportedError(MrcUnsupportedError::UnrecognizedMode(99)),
        MrcError::IoError(MrcIoError::ShortRead),
        MrcError::IoError(MrcIoError::SeekFailed),
        MrcError::LimitsExceeded,
    ];
    for e in errors.iter() {
        assert_eq!(&e.clone(), e);
    }
}
