use mrc::error::MrcUnsupportedError;
use mrc::registry::{resolve, ElementType, PixelFormat};
use mrc::Mode;

#[test]
fn the_modes_of_the_format_resolve() {
    assert_eq!(resolve(0), Ok(PixelFormat { element: ElementType::Int8, width: 1, multiplicity: 1 }));
    assert_eq!(resolve(1), Ok(PixelFormat { element: ElementType::Int16, width: 2, multiplicity: 1 }));
    assert_eq!(resolve(2), Ok(PixelFormat { element: ElementType::Float32, width: 4, multiplicity: 1 }));
    assert_eq!(resolve(3), Ok(PixelFormat { element: ElementType::Int16, width: 2, multiplicity: 2 }));
    assert_eq!(resolve(4), Ok(PixelFormat { element: ElementType::Float32, width: 4, multiplicity: 2 }));
    assert_eq!(resolve(6), Ok(PixelFormat { element: ElementType::Uint16, width: 2, multiplicity: 1 }));
}

#[test]
fn the_colour_mode_resolves() {
    assert_eq!(resolve(16), Ok(PixelFormat { element: ElementType::Uint8, width: 1, multiplicity: 3 }));
    assert_eq!(resolve(16).unwrap().pixel_bytes(), 3);
    assert_eq!(resolve(4).unwrap().pixel_bytes(), 8);
}

#[test]
fn other_codes_are_unsupported_and_named() {
    assert_eq!(resolve(99), Err(MrcUnsupportedError::UnrecognizedMode(99)));
    assert_eq!(resolve(5), Err(MrcUnsupportedError::UnrecognizedMode(5)));
    assert_eq!(resolve(7), Err(MrcUnsupportedError::UnrecognizedMode(7)));
    assert_eq!(resolve(-1), Err(MrcUnsupportedError::UnrecognizedMode(-1)));
    assert_eq!(resolve(i32::MAX), Err(MrcUnsupportedError::UnrecognizedMode(i32::MAX)));
    assert_eq!(resolve(i32::MIN), Err(MrcUnsupportedError::UnrecognizedMode(i32::MIN)));
}

#[test]
fn codes_and_modes_round_trip() {
    for code in [0, 1, 2, 3, 4, 6, 16] {
        let mode = Mode::from_code(code).unwrap();
        assert_eq!(mode.code(), Some(code));
    }
    assert_eq!(Mode::from_code(0), Some(Mode::Mode0));
    assert_eq!(Mode::from_code(6), Some(Mode::Mode6));
    assert_eq!(Mode::from_code(16), Some(Mode::Mode16));
    assert_eq!(Mode::from_code(5), None);
}

#[test]
fn conventions_have_no_code_and_no_layout() {
    for mode in [Mode::IMOD, Mode::EPU, Mode::IVE] {
        assert_eq!(mode.code(), None);
        assert_eq!(mode.pixel_format(), Err(MrcUnsupportedError::UnsupportedMode(mode)));
    }
}

#[test]
fn widths_of_the_element_types() {
    assert_eq!(ElementType::Int8.width(), 1);
    assert_eq!(ElementType::Uint8.width(), 1);
    assert_eq!(ElementType::Int16.width(), 2);
    assert_eq!(ElementType::Uint16.width(), 2);
    assert_eq!(ElementType::Int32.width(), 4);
    assert_eq!(ElementType::Float32.width(), 4);
    assert_eq!(ElementType::Float64.width(), 8);
}
