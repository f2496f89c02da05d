//! From the mode that a header declares to the layout of its pixels.

use crate::error::MrcUnsupportedError;
use crate::Mode;
use vstd::prelude::*;

verus! {

/// The type of the numbers that make up a pixel.
#[derive(Clone, Copy, Debug, PartialEq, Eq, Structural, Hash)]
pub enum ElementType {
    /// A signed integer of 8 bits.
    Int8,
    /// A signed integer of 16 bits.
    Int16,
    /// A signed integer of 32 bits.
    Int32,
    /// An unsigned integer of 8 bits.
    Uint8,
    /// An unsigned integer of 16 bits.
    Uint16,
    /// A real of 32 bits.
    Float32,
    /// A real of 64 bits.
    Float64,
}

impl ElementType {
    /// The number of bytes that one number of this type takes.
    pub open spec fn spec_width(self) -> nat {
        match self {
            ElementType::Int8 | ElementType::Uint8 => 1,
            ElementType::Int16 | ElementType::Uint16 => 2,
            ElementType::Int32 | ElementType::Float32 => 4,
            ElementType::Float64 => 8,
        }
    }

    /// The number of bytes that one number of this type takes.
    pub fn width(self) -> (width: usize)
        ensures
            width == self.spec_width(),
    {
        match self {
            ElementType::Int8 | ElementType::Uint8 => 1,
            ElementType::Int16 | ElementType::Uint16 => 2,
            ElementType::Int32 | ElementType::Float32 => 4,
            ElementType::Float64 => 8,
        }
    }
}

/// How the pixels of an image are laid out.
#[derive(Clone, Copy, Debug, PartialEq, Eq, Structural, Hash)]
pub struct PixelFormat {
    /// The type of the numbers of a pixel.
    pub element: ElementType,
    /// The number of bytes of one number.
    pub width: usize,
    /// How many numbers make up a pixel: 1 for a scalar, 2 for a complex
    /// number, 3 for a colour.
    pub multiplicity: usize,
}

impl PixelFormat {
    /// Whether the width is that of the element type and the multiplicity
    /// is one that a mode has.
    pub open spec fn valid(self) -> bool {
        &&& self.width == self.element.spec_width()
        &&& 1 <= self.multiplicity <= 3
    }

    /// The number of bytes of one pixel.
    pub open spec fn spec_pixel_bytes(self) -> nat {
        (self.width * self.multiplicity) as nat
    }

    /// The number of bytes of one pixel.
    pub fn pixel_bytes(self) -> (bytes: usize)
        requires
            self.valid(),
        ensures
            bytes == self.spec_pixel_bytes(),
            1 <= bytes <= 24,
    {
        assert(1 <= self.width * self.multiplicity <= 24) by (nonlinear_arith)
            requires
                1 <= self.width <= 8,
                1 <= self.multiplicity <= 3,
        ;
        self.width * self.multiplicity
    }
}

impl PixelFormat {
    /// The layout of pixels that are each made of `multiplicity` numbers of
    /// the type `element`.
    pub open spec fn spec_of(element: ElementType, multiplicity: usize) -> PixelFormat {
        PixelFormat { element, width: element.spec_width() as usize, multiplicity }
    }

    /// The layout of pixels that are each made of `multiplicity` numbers of
    /// the type `element`.
    pub fn of(element: ElementType, multiplicity: usize) -> (format: PixelFormat)
        ensures
            format == Self::spec_of(element, multiplicity),
    {
        PixelFormat { element, width: element.width(), multiplicity }
    }
}

impl Mode {
    /// The layout of the pixels of this mode. The conventions of the
    /// packages have none.
    pub open spec fn spec_pixel_format(self) -> Option<PixelFormat> {
        match self {
            Mode::Mode0 => Some(PixelFormat::spec_of(ElementType::Int8, 1)),
            Mode::Mode1 => Some(PixelFormat::spec_of(ElementType::Int16, 1)),
            Mode::Mode2 => Some(PixelFormat::spec_of(ElementType::Float32, 1)),
            Mode::Mode3 => Some(PixelFormat::spec_of(ElementType::Int16, 2)),
            Mode::Mode4 => Some(PixelFormat::spec_of(ElementType::Float32, 2)),
            Mode::Mode6 => Some(PixelFormat::spec_of(ElementType::Uint16, 1)),
            Mode::Mode16 => Some(PixelFormat::spec_of(ElementType::Uint8, 3)),
            Mode::IMOD | Mode::EPU | Mode::IVE => None,
        }
    }

    /// The layout of the pixels of this mode, or the mode itself as
    /// unsupported where it has none.
    pub fn pixel_format(self) -> (result: Result<PixelFormat, MrcUnsupportedError>)
        ensures
            match result {
                Ok(format) => self.spec_pixel_format() == Some(format) && format.valid(),
                Err(e) => self.spec_pixel_format().is_none()
                    && e == MrcUnsupportedError::UnsupportedMode(self),
            },
    {
        match self {
            Mode::Mode0 => Ok(PixelFormat::of(ElementType::Int8, 1)),
            Mode::Mode1 => Ok(PixelFormat::of(ElementType::Int16, 1)),
            Mode::Mode2 => Ok(PixelFormat::of(ElementType::Float32, 1)),
            Mode::Mode3 => Ok(PixelFormat::of(ElementType::Int16, 2)),
            Mode::Mode4 => Ok(PixelFormat::of(ElementType::Float32, 2)),
            Mode::Mode6 => Ok(PixelFormat::of(ElementType::Uint16, 1)),
            Mode::Mode16 => Ok(PixelFormat::of(ElementType::Uint8, 3)),
            Mode::IMOD | Mode::EPU | Mode::IVE => Err(MrcUnsupportedError::UnsupportedMode(self)),
        }
    }
}

/// The layouts of the modes: signed bytes, signed words, reals, pairs of
/// signed words, pairs of reals, unsigned words, and triples of bytes.
pub proof fn lemma_layouts_of_the_modes()
    ensures
        spec_resolve(0) == Ok::<PixelFormat, MrcUnsupportedError>(
            (PixelFormat { element: ElementType::Int8, width: 1, multiplicity: 1 }),
        ),
        spec_resolve(1) == Ok::<PixelFormat, MrcUnsupportedError>(
            (PixelFormat { element: ElementType::Int16, width: 2, multiplicity: 1 }),
        ),
        spec_resolve(2) == Ok::<PixelFormat, MrcUnsupportedError>(
            (PixelFormat { element: ElementType::Float32, width: 4, multiplicity: 1 }),
        ),
        spec_resolve(3) == Ok::<PixelFormat, MrcUnsupportedError>(
            (PixelFormat { element: ElementType::Int16, width: 2, multiplicity: 2 }),
        ),
        spec_resolve(4) == Ok::<PixelFormat, MrcUnsupportedError>(
            (PixelFormat { element: ElementType::Float32, width: 4, multiplicity: 2 }),
        ),
        spec_resolve(6) == Ok::<PixelFormat, MrcUnsupportedError>(
            (PixelFormat { element: ElementType::Uint16, width: 2, multiplicity: 1 }),
        ),
        spec_resolve(16) == Ok::<PixelFormat, MrcUnsupportedError>(
            (PixelFormat { element: ElementType::Uint8, width: 1, multiplicity: 3 }),
        ),
{
}

/// What a mode code of a file resolves to: the layout of the pixels of the
/// mode that it stands for, or the code itself as unrecognized.
pub open spec fn spec_resolve(code: i32) -> Result<PixelFormat, MrcUnsupportedError> {
    match Mode::spec_from_code(code) {
        Some(mode) => Ok(mode.spec_pixel_format()->Some_0),
        None => Err(MrcUnsupportedError::UnrecognizedMode(code)),
    }
}

/// Resolves the mode code of a file to the layout of its pixels.
pub fn resolve(code: i32) -> (result: Result<PixelFormat, MrcUnsupportedError>)
    ensures
        result == spec_resolve(code),
        result matches Ok(format) ==> format.valid(),
{
    match Mode::from_code(code) {
        Some(mode) => mode.pixel_format(),
        None => Err(MrcUnsupportedError::UnrecognizedMode(code)),
    }
}

/// The codes that resolve are 0, 1, 2, 3, 4, 6 and 16, and no others.
pub proof fn lemma_resolved_codes(code: i32)
    ensures
        spec_resolve(code).is_ok() <==> (code == 0 || code == 1 || code == 2 || code == 3 || code
            == 4 || code == 6 || code == 16),
        spec_resolve(code) matches Err(e) ==> e == MrcUnsupportedError::UnrecognizedMode(code),
{
}

} // verus!
