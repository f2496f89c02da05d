//! The ceilings that keep a decoder from allocating what a header asks for.

use crate::error::{MrcError, MrcErrorView, MrcResult};
use vstd::prelude::*;

verus! {

/// Decoding limits
#[derive(Clone, Copy, Debug, PartialEq, Eq, Structural)]
pub struct Limits {
    /// The maximum size of the decoded pixel data in bytes, the default is
    /// 256MiB. No buffer is allocated for an image whose pixel data as a
    /// whole would be larger.
    pub decoding_buffer_size: usize,
    /// The maximum size of any metadata value in bytes, the default is
    /// 1MiB.
    pub ifd_value_size: usize,
    /// Maximum size for the intermediate buffer that holds the bytes of one
    /// read, the default is 128MiB.
    pub intermediate_buffer_size: usize,
}

impl Default for Limits {
    fn default() -> (limits: Limits)
        ensures
            limits == Limits::spec_default(),
    {
        Limits {
            decoding_buffer_size: 256 * 1024 * 1024,
            intermediate_buffer_size: 128 * 1024 * 1024,
            ifd_value_size: 1024 * 1024,
        }
    }
}

/// The number of bytes that the pixel data of an image takes.
pub open spec fn spec_required_bytes(
    nx: nat,
    ny: nat,
    nz: nat,
    multiplicity: nat,
    width: nat,
) -> nat {
    nx * ny * nz * multiplicity * width
}

/// A product of numbers that are not zero is no smaller than the product of
/// the first of them.
proof fn lemma_partial_products(nx: nat, ny: nat, nz: nat, multiplicity: nat, width: nat)
    requires
        nx > 0,
        ny > 0,
        nz > 0,
        multiplicity > 0,
        width > 0,
    ensures
        nx * ny <= nx * ny * nz <= nx * ny * nz * multiplicity <= nx * ny * nz * multiplicity
            * width,
{
    assert(nx * ny <= nx * ny * nz) by (nonlinear_arith)
        requires
            nz > 0,
    ;
    assert(nx * ny * nz <= nx * ny * nz * multiplicity) by (nonlinear_arith)
        requires
            multiplicity > 0,
    ;
    assert(nx * ny * nz * multiplicity <= nx * ny * nz * multiplicity * width)
        by (nonlinear_arith)
        requires
            width > 0,
    ;
}

/// A product with a factor that is zero is zero.
proof fn lemma_zero_product(nx: nat, ny: nat, nz: nat, multiplicity: nat, width: nat)
    requires
        nx == 0 || ny == 0 || nz == 0 || multiplicity == 0 || width == 0,
    ensures
        nx * ny * nz * multiplicity * width == 0,
{
    assert(nx * ny * nz * multiplicity * width == 0) by (nonlinear_arith)
        requires
            nx == 0 || ny == 0 || nz == 0 || multiplicity == 0 || width == 0,
    ;
}

/// The number of bytes that the pixel data of an image takes, unless it is
/// more than a number can hold.
pub fn required_bytes(nx: usize, ny: usize, nz: usize, multiplicity: usize, width: usize) -> (bytes:
    Option<usize>)
    ensures
        match bytes {
            Some(bytes) => bytes == spec_required_bytes(
                nx as nat,
                ny as nat,
                nz as nat,
                multiplicity as nat,
                width as nat,
            ),
            None => spec_required_bytes(
                nx as nat,
                ny as nat,
                nz as nat,
                multiplicity as nat,
                width as nat,
            ) > usize::MAX,
        },
{
    if nx == 0 || ny == 0 || nz == 0 || multiplicity == 0 || width == 0 {
        proof {
            lemma_zero_product(nx as nat, ny as nat, nz as nat, multiplicity as nat, width as nat);
        }
        return Some(0);
    }
    proof {
        lemma_partial_products(nx as nat, ny as nat, nz as nat, multiplicity as nat, width as nat);
    }
    let plane: usize = match nx.checked_mul(ny) {
        Some(plane) => plane,
        None => {
            return None;
        },
    };
    let volume: usize = match plane.checked_mul(nz) {
        Some(volume) => volume,
        None => {
            return None;
        },
    };
    let numbers: usize = match volume.checked_mul(multiplicity) {
        Some(numbers) => numbers,
        None => {
            return None;
        },
    };
    numbers.checked_mul(width)
}

impl Limits {
    /// The limits of a decoder that was given no others.
    pub open spec fn spec_default() -> Limits {
        Limits {
            decoding_buffer_size: 0x1000_0000,
            intermediate_buffer_size: 0x800_0000,
            ifd_value_size: 0x10_0000,
        }
    }

    /// Whether pixel data of `bytes` bytes may be decoded.
    pub open spec fn admits_buffer(&self, bytes: nat) -> bool {
        bytes <= self.decoding_buffer_size
    }

    /// Whether a metadata value of `bytes` bytes may be read.
    pub open spec fn admits_value(&self, bytes: nat) -> bool {
        bytes <= self.ifd_value_size
    }

    /// Whether `bytes` bytes may be read at once.
    pub open spec fn admits_read(&self, bytes: nat) -> bool {
        bytes <= self.intermediate_buffer_size
    }

    /// Gives the number of bytes that the pixel data of an image takes, and
    /// refuses an image whose pixel data takes more bytes than these limits
    /// admit. Nothing is allocated.
    pub fn check_volume(
        &self,
        nx: usize,
        ny: usize,
        nz: usize,
        multiplicity: usize,
        width: usize,
    ) -> (result: MrcResult<usize>)
        ensures
            match result {
                Ok(bytes) => {
                    &&& bytes == spec_required_bytes(
                        nx as nat,
                        ny as nat,
                        nz as nat,
                        multiplicity as nat,
                        width as nat,
                    )
                    &&& self.admits_buffer(bytes as nat)
                },
                Err(e) => {
                    &&& !self.admits_buffer(
                        spec_required_bytes(
                            nx as nat,
                            ny as nat,
                            nz as nat,
                            multiplicity as nat,
                            width as nat,
                        ),
                    )
                    &&& e@ == MrcErrorView::LimitsExceeded
                },
            },
    {
        match required_bytes(nx, ny, nz, multiplicity, width) {
            Some(bytes) => {
                self.check_buffer(bytes)?;
                Ok(bytes)
            },
            None => Err(MrcError::LimitsExceeded),
        }
    }

    /// Refuses pixel data of more bytes than these limits admit.
    pub fn check_buffer(&self, bytes: usize) -> (result: MrcResult<()>)
        ensures
            result is Ok <==> self.admits_buffer(bytes as nat),
            result matches Err(e) ==> e@ == MrcErrorView::LimitsExceeded,
    {
        if bytes > self.decoding_buffer_size {
            Err(MrcError::LimitsExceeded)
        } else {
            Ok(())
        }
    }

    /// Refuses a metadata value of more bytes than these limits admit.
    pub fn check_value(&self, bytes: usize) -> (result: MrcResult<()>)
        ensures
            result is Ok <==> self.admits_value(bytes as nat),
            result matches Err(e) ==> e@ == MrcErrorView::LimitsExceeded,
    {
        if bytes > self.ifd_value_size {
            Err(MrcError::LimitsExceeded)
        } else {
            Ok(())
        }
    }

    /// Refuses a read of more bytes than these limits admit.
    pub fn check_read(&self, bytes: usize) -> (result: MrcResult<()>)
        ensures
            result is Ok <==> self.admits_read(bytes as nat),
            result matches Err(e) ==> e@ == MrcErrorView::LimitsExceeded,
    {
        if bytes > self.intermediate_buffer_size {
            Err(MrcError::LimitsExceeded)
        } else {
            Ok(())
        }
    }
}

} // verus!
