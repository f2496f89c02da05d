//! Decoding of MRC images.
//!
//! The MRC binary file format is widely used in three-dimensional electron
//! microscopy for storing image and volume data. A file is a fixed header of
//! 224 bytes, an extended header of metadata, and a block of raw pixel data
//! whose element type and dimensions the header declares.

use vstd::prelude::*;

pub mod decoder;
pub mod error;
pub mod registry;

pub use self::error::{MrcError, MrcResult};

verus! {

/// The pixel encodings of the format, and the conventions of the packages
/// that extended it.
#[derive(Copy, PartialEq, Eq, Structural, Debug, Clone, Hash)]
pub enum Mode {
    /// A 1-byte signed integer.
    Mode0,
    /// A 2-byte signed integer.
    Mode1,
    /// A 4-byte real.
    Mode2,
    /// A complex number made of a pair of 2-byte signed integers.
    Mode3,
    /// A complex number made of a pair of 4-byte reals.
    Mode4,
    /// A 2-byte unsigned integer.
    Mode6,
    /// The conventions of IMOD.
    IMOD,
    /// The conventions of EPU.
    EPU,
    /// The conventions of the Image Visualization Environment.
    IVE,
    /// Colour data in three 1-byte unsigned integers.
    Mode16,
}

impl Mode {
    /// The integer that stands for this mode in a file. The conventions of
    /// the packages stand for no encoding of their own and have none.
    pub open spec fn spec_code(self) -> Option<i32> {
        match self {
            Mode::Mode0 => Some(0i32),
            Mode::Mode1 => Some(1i32),
            Mode::Mode2 => Some(2i32),
            Mode::Mode3 => Some(3i32),
            Mode::Mode4 => Some(4i32),
            Mode::Mode6 => Some(6i32),
            Mode::Mode16 => Some(16i32),
            Mode::IMOD | Mode::EPU | Mode::IVE => None,
        }
    }

    /// The mode that an integer of a file stands for.
    pub open spec fn spec_from_code(code: i32) -> Option<Mode> {
        if code == 0 {
            Some(Mode::Mode0)
        } else if code == 1 {
            Some(Mode::Mode1)
        } else if code == 2 {
            Some(Mode::Mode2)
        } else if code == 3 {
            Some(Mode::Mode3)
        } else if code == 4 {
            Some(Mode::Mode4)
        } else if code == 6 {
            Some(Mode::Mode6)
        } else if code == 16 {
            Some(Mode::Mode16)
        } else {
            None
        }
    }

    /// The integer that stands for this mode in a file, where it has one.
    pub fn code(self) -> (code: Option<i32>)
        ensures
            code == self.spec_code(),
    {
        match self {
            Mode::Mode0 => Some(0),
            Mode::Mode1 => Some(1),
            Mode::Mode2 => Some(2),
            Mode::Mode3 => Some(3),
            Mode::Mode4 => Some(4),
            Mode::Mode6 => Some(6),
            Mode::Mode16 => Some(16),
            Mode::IMOD | Mode::EPU | Mode::IVE => None,
        }
    }

    /// The mode that `code` stands for in a file, if it stands for one.
    pub fn from_code(code: i32) -> (mode: Option<Mode>)
        ensures
            mode == Self::spec_from_code(code),
    {
        if code == 0 {
            Some(Mode::Mode0)
        } else if code == 1 {
            Some(Mode::Mode1)
        } else if code == 2 {
            Some(Mode::Mode2)
        } else if code == 3 {
            Some(Mode::Mode3)
        } else if code == 4 {
            Some(Mode::Mode4)
        } else if code == 6 {
            Some(Mode::Mode6)
        } else if code == 16 {
            Some(Mode::Mode16)
        } else {
            None
        }
    }
}

/// A mode is found again from its code, and a code from its mode.
pub proof fn lemma_mode_code_round_trip(mode: Mode, code: i32)
    ensures
        mode.spec_code() == Some(code) <==> Mode::spec_from_code(code) == Some(mode),
{
}

} // verus!
