//! Reading numbers from a byte source in a given byte order.

use crate::error::MrcIoError;
use vstd::prelude::*;

verus! {

/// Byte order of the MRC file.
#[derive(Clone, Copy, Debug, PartialEq, Eq, Structural, Hash)]
pub enum ByteOrder {
    /// little endian byte order
    LittleEndian,
    /// big endian byte order
    BigEndian,
}

impl ByteOrder {
    /// The byte order that a machine stamp declares: `44 44 00 00` in
    /// hexadecimal stands for little endian, `11 11 00 00` for big endian,
    /// and nothing else is a machine stamp.
    pub open spec fn spec_from_stamp(stamp: Seq<u8>) -> Option<ByteOrder> {
        if stamp =~= seq![0x44u8, 0x44u8, 0x00u8, 0x00u8] {
            Some(ByteOrder::LittleEndian)
        } else if stamp =~= seq![0x11u8, 0x11u8, 0x00u8, 0x00u8] {
            Some(ByteOrder::BigEndian)
        } else {
            None
        }
    }

    /// The unsigned number that two bytes stand for in this order.
    pub open spec fn spec_u16(self, b: Seq<u8>) -> int
        recommends
            b.len() == 2,
    {
        match self {
            ByteOrder::LittleEndian => b[0] + 0x100 * b[1],
            ByteOrder::BigEndian => b[1] + 0x100 * b[0],
        }
    }

    /// The unsigned number that four bytes stand for in this order.
    pub open spec fn spec_u32(self, b: Seq<u8>) -> int
        recommends
            b.len() == 4,
    {
        match self {
            ByteOrder::LittleEndian => b[0] + 0x100 * b[1] + 0x1_0000 * b[2] + 0x100_0000 * b[3],
            ByteOrder::BigEndian => b[3] + 0x100 * b[2] + 0x1_0000 * b[1] + 0x100_0000 * b[0],
        }
    }

    /// The unsigned number that eight bytes stand for in this order.
    pub open spec fn spec_u64(self, b: Seq<u8>) -> int
        recommends
            b.len() == 8,
    {
        match self {
            ByteOrder::LittleEndian => self.spec_u32(b.subrange(0, 4)) + 0x1_0000_0000
                * self.spec_u32(b.subrange(4, 8)),
            ByteOrder::BigEndian => self.spec_u32(b.subrange(4, 8)) + 0x1_0000_0000
                * self.spec_u32(b.subrange(0, 4)),
        }
    }

    /// The signed number that two bytes stand for in this order.
    pub open spec fn spec_i16(self, b: Seq<u8>) -> int
        recommends
            b.len() == 2,
    {
        let pattern = self.spec_u16(b);
        if pattern < 0x8000 {
            pattern
        } else {
            pattern - 0x1_0000
        }
    }

    /// The signed number that four bytes stand for in this order.
    pub open spec fn spec_i32(self, b: Seq<u8>) -> int
        recommends
            b.len() == 4,
    {
        let pattern = self.spec_u32(b);
        if pattern < 0x8000_0000 {
            pattern
        } else {
            pattern - 0x1_0000_0000
        }
    }

    /// Reads a machine stamp.
    pub fn from_stamp(stamp: &[u8]) -> (order: Option<ByteOrder>)
        ensures
            order == Self::spec_from_stamp(stamp@),
    {
        if stamp.len() != 4 {
            return None;
        }
        if stamp[0] == 0x44 && stamp[1] == 0x44 && stamp[2] == 0 && stamp[3] == 0 {
            Some(ByteOrder::LittleEndian)
        } else if stamp[0] == 0x11 && stamp[1] == 0x11 && stamp[2] == 0 && stamp[3] == 0 {
            Some(ByteOrder::BigEndian)
        } else {
            None
        }
    }

    /// The unsigned 16-bit number at `at` in `bytes`.
    pub fn u16_at(self, bytes: &[u8], at: usize) -> (value: u16)
        requires
            at + 2 <= bytes@.len(),
        ensures
            value == self.spec_u16(bytes@.subrange(at as int, at + 2)),
    {
        let b0: u16 = bytes[at] as u16;
        let b1: u16 = bytes[at + 1] as u16;
        match self {
            ByteOrder::LittleEndian => b0 + 0x100 * b1,
            ByteOrder::BigEndian => b1 + 0x100 * b0,
        }
    }

    /// The unsigned 32-bit number at `at` in `bytes`.
    pub fn u32_at(self, bytes: &[u8], at: usize) -> (value: u32)
        requires
            at + 4 <= bytes@.len(),
        ensures
            value == self.spec_u32(bytes@.subrange(at as int, at + 4)),
    {
        let b0: u32 = bytes[at] as u32;
        let b1: u32 = bytes[at + 1] as u32;
        let b2: u32 = bytes[at + 2] as u32;
        let b3: u32 = bytes[at + 3] as u32;
        match self {
            ByteOrder::LittleEndian => b0 + 0x100 * b1 + 0x1_0000 * b2 + 0x100_0000 * b3,
            ByteOrder::BigEndian => b3 + 0x100 * b2 + 0x1_0000 * b1 + 0x100_0000 * b0,
        }
    }

    /// The unsigned 64-bit number at `at` in `bytes`.
    pub fn u64_at(self, bytes: &[u8], at: usize) -> (value: u64)
        requires
            at + 8 <= bytes@.len(),
        ensures
            value == self.spec_u64(bytes@.subrange(at as int, at + 8)),
    {
        assert(bytes@.len() == bytes.len());
        let first: u64 = self.u32_at(bytes, at) as u64;
        let second: u64 = self.u32_at(bytes, at + 4) as u64;
        proof {
            let whole = bytes@.subrange(at as int, at + 8);
            assert(whole.subrange(0, 4) =~= bytes@.subrange(at as int, at + 4));
            assert(whole.subrange(4, 8) =~= bytes@.subrange(at + 4, at + 8));
        }
        match self {
            ByteOrder::LittleEndian => first + 0x1_0000_0000 * second,
            ByteOrder::BigEndian => second + 0x1_0000_0000 * first,
        }
    }

    /// The signed 16-bit number at `at` in `bytes`.
    pub fn i16_at(self, bytes: &[u8], at: usize) -> (value: i16)
        requires
            at + 2 <= bytes@.len(),
        ensures
            value == self.spec_i16(bytes@.subrange(at as int, at + 2)),
    {
        let pattern: u16 = self.u16_at(bytes, at);
        if pattern < 0x8000 {
            pattern as i16
        } else {
            ((pattern - 0x8000) as i16) + i16::MIN
        }
    }

    /// The signed 32-bit number at `at` in `bytes`.
    pub fn i32_at(self, bytes: &[u8], at: usize) -> (value: i32)
        requires
            at + 4 <= bytes@.len(),
        ensures
            value == self.spec_i32(bytes@.subrange(at as int, at + 4)),
    {
        let pattern: u32 = self.u32_at(bytes, at);
        if pattern < 0x8000_0000 {
            pattern as i32
        } else {
            ((pattern - 0x8000_0000) as i32) + i32::MIN
        }
    }
}

/// Whether `values` are the unsigned 16-bit numbers that `bytes` hold, one
/// after the other.
pub open spec fn holds_u16s(order: ByteOrder, bytes: Seq<u8>, values: Seq<u16>) -> bool {
    &&& bytes.len() == 2 * values.len()
    &&& forall|i: int|
        0 <= i < values.len() ==> #[trigger] values[i] == order.spec_u16(
            bytes.subrange(2 * i, 2 * i + 2),
        )
}

/// Whether `values` are the signed 16-bit numbers that `bytes` hold, one
/// after the other.
pub open spec fn holds_i16s(order: ByteOrder, bytes: Seq<u8>, values: Seq<i16>) -> bool {
    &&& bytes.len() == 2 * values.len()
    &&& forall|i: int|
        0 <= i < values.len() ==> #[trigger] values[i] == order.spec_i16(
            bytes.subrange(2 * i, 2 * i + 2),
        )
}

/// Whether `values` are the unsigned 32-bit numbers that `bytes` hold, one
/// after the other.
pub open spec fn holds_u32s(order: ByteOrder, bytes: Seq<u8>, values: Seq<u32>) -> bool {
    &&& bytes.len() == 4 * values.len()
    &&& forall|i: int|
        0 <= i < values.len() ==> #[trigger] values[i] == order.spec_u32(
            bytes.subrange(4 * i, 4 * i + 4),
        )
}

/// Whether `values` are the signed 32-bit numbers that `bytes` hold, one
/// after the other.
pub open spec fn holds_i32s(order: ByteOrder, bytes: Seq<u8>, values: Seq<i32>) -> bool {
    &&& bytes.len() == 4 * values.len()
    &&& forall|i: int|
        0 <= i < values.len() ==> #[trigger] values[i] == order.spec_i32(
            bytes.subrange(4 * i, 4 * i + 4),
        )
}

/// Whether `values` are the unsigned 64-bit numbers that `bytes` hold, one
/// after the other.
pub open spec fn holds_u64s(order: ByteOrder, bytes: Seq<u8>, values: Seq<u64>) -> bool {
    &&& bytes.len() == 8 * values.len()
    &&& forall|i: int|
        0 <= i < values.len() ==> #[trigger] values[i] == order.spec_u64(
            bytes.subrange(8 * i, 8 * i + 8),
        )
}

/// The signed number that a byte stands for.
pub open spec fn spec_i8(byte: u8) -> int {
    if byte < 0x80 {
        byte as int
    } else {
        byte - 0x100
    }
}

/// Whether `values` are the signed 8-bit numbers that `bytes` hold.
pub open spec fn holds_i8s(bytes: Seq<u8>, values: Seq<i8>) -> bool {
    &&& bytes.len() == values.len()
    &&& forall|i: int| 0 <= i < values.len() ==> #[trigger] values[i] == spec_i8(bytes[i])
}

/// The signed number that a byte stands for.
pub fn i8_of(byte: u8) -> (value: i8)
    ensures
        value == spec_i8(byte),
{
    if byte < 0x80 {
        byte as i8
    } else {
        ((byte - 0x80) as i8) + i8::MIN
    }
}

/// A source of bytes, the position of the next read in it, and the order of
/// the bytes of its numbers.
pub ghost struct Stream {
    pub source: Seq<u8>,
    pub position: nat,
    pub order: ByteOrder,
}

impl Stream {
    /// Whether `count` more bytes can be read.
    pub open spec fn can_read(self, count: nat) -> bool {
        self.position + count <= self.source.len()
    }

    /// The next `count` bytes.
    pub open spec fn upcoming(self, count: nat) -> Seq<u8> {
        self.source.subrange(self.position as int, (self.position + count) as int)
    }

    /// The stream with its position moved on by `count` bytes.
    pub open spec fn skip(self, count: nat) -> Stream {
        Stream { position: self.position + count, ..self }
    }
}

/// Reader that is aware of the byte order.
///
/// A reader stands at a position in a source of bytes. Every read takes the
/// bytes that follow the position and moves the position behind them; a read
/// for which the source is too short fails and leaves the reader as it was.
pub trait EndianReader: Sized {
    /// The source, the position in it and the byte order.
    spec fn stream(&self) -> Stream;

    /// Byte order that should be adhered to
    fn byte_order(&self) -> (order: ByteOrder)
        ensures
            order == self.stream().order,
    ;

    /// Reads exactly `count` bytes.
    fn read_exact(&mut self, count: usize) -> (result: Result<Vec<u8>, MrcIoError>)
        ensures
            match result {
                Ok(bytes) => {
                    &&& old(self).stream().can_read(count as nat)
                    &&& bytes@ == old(self).stream().upcoming(count as nat)
                    &&& final(self).stream() == old(self).stream().skip(count as nat)
                },
                Err(e) => {
                    &&& !old(self).stream().can_read(count as nat)
                    &&& e == MrcIoError::ShortRead
                    &&& final(self).stream() == old(self).stream()
                },
            },
    ;

    /// Reads an u16
    fn read_u16(&mut self) -> (result: Result<u16, MrcIoError>)
        ensures
            match result {
                Ok(value) => {
                    &&& old(self).stream().can_read(2)
                    &&& value == old(self).stream().order.spec_u16(old(self).stream().upcoming(2))
                    &&& final(self).stream() == old(self).stream().skip(2)
                },
                Err(e) => {
                    &&& !old(self).stream().can_read(2)
                    &&& e == MrcIoError::ShortRead
                    &&& final(self).stream() == old(self).stream()
                },
            },
    {
        let order = self.byte_order();
        match self.read_exact(2) {
            Ok(bytes) => {
                assert(bytes@.subrange(0, 2) =~= bytes@);
                Ok(order.u16_at(bytes.as_slice(), 0))
            },
            Err(e) => Err(e),
        }
    }

    /// Reads as many u16 as `buffer` holds, into `buffer`.
    fn read_u16_into(&mut self, buffer: &mut [u16]) -> (result: Result<(), MrcIoError>)
        requires
            2 * old(buffer)@.len() <= usize::MAX,
        ensures
            final(buffer)@.len() == old(buffer)@.len(),
            match result {
                Ok(()) => {
                    &&& old(self).stream().can_read(2 * old(buffer)@.len())
                    &&& holds_u16s(
                        old(self).stream().order,
                        old(self).stream().upcoming(2 * old(buffer)@.len()),
                        final(buffer)@,
                    )
                    &&& final(self).stream() == old(self).stream().skip(2 * old(buffer)@.len())
                },
                Err(e) => {
                    &&& !old(self).stream().can_read(2 * old(buffer)@.len())
                    &&& e == MrcIoError::ShortRead
                    &&& final(buffer)@ == old(buffer)@
                    &&& final(self).stream() == old(self).stream()
                },
            },
    {
        let order = self.byte_order();
        let count: usize = buffer.len();
        match self.read_exact(2 * count) {
            Ok(bytes) => {
                let mut i: usize = 0;
                while i < count
                    invariant
                        i <= count,
                        buffer@.len() == count,
                        bytes@.len() == 2 * count <= usize::MAX,
                        forall|k: int|
                            0 <= k < i ==> #[trigger] buffer@[k] == order.spec_u16(
                                bytes@.subrange(2 * k, 2 * k + 2),
                            ),
                    decreases count - i,
                {
                    buffer[i] = order.u16_at(bytes.as_slice(), 2 * i);
                    i += 1;
                }
                Ok(())
            },
            Err(e) => Err(e),
        }
    }

    /// Reads an i16
    fn read_i16(&mut self) -> (result: Result<i16, MrcIoError>)
        ensures
            match result {
                Ok(value) => {
                    &&& old(self).stream().can_read(2)
                    &&& value == old(self).stream().order.spec_i16(old(self).stream().upcoming(2))
                    &&& final(self).stream() == old(self).stream().skip(2)
                },
                Err(e) => {
                    &&& !old(self).stream().can_read(2)
                    &&& e == MrcIoError::ShortRead
                    &&& final(self).stream() == old(self).stream()
                },
            },
    {
        let order = self.byte_order();
        match self.read_exact(2) {
            Ok(bytes) => {
                assert(bytes@.subrange(0, 2) =~= bytes@);
                Ok(order.i16_at(bytes.as_slice(), 0))
            },
            Err(e) => Err(e),
        }
    }

    /// Reads as many i16 as `buffer` holds, into `buffer`.
    fn read_i16_into(&mut self, buffer: &mut [i16]) -> (result: Result<(), MrcIoError>)
        requires
            2 * old(buffer)@.len() <= usize::MAX,
        ensures
            final(buffer)@.len() == old(buffer)@.len(),
            match result {
                Ok(()) => {
                    &&& old(self).stream().can_read(2 * old(buffer)@.len())
                    &&& holds_i16s(
                        old(self).stream().order,
                        old(self).stream().upcoming(2 * old(buffer)@.len()),
                        final(buffer)@,
                    )
                    &&& final(self).stream() == old(self).stream().skip(2 * old(buffer)@.len())
                },
                Err(e) => {
                    &&& !old(self).stream().can_read(2 * old(buffer)@.len())
                    &&& e == MrcIoError::ShortRead
                    &&& final(buffer)@ == old(buffer)@
                    &&& final(self).stream() == old(self).stream()
                },
            },
    {
        let order = self.byte_order();
        let count: usize = buffer.len();
        match self.read_exact(2 * count) {
            Ok(bytes) => {
                let mut i: usize = 0;
                while i < count
                    invariant
                        i <= count,
                        buffer@.len() == count,
                        bytes@.len() == 2 * count <= usize::MAX,
                        forall|k: int|
                            0 <= k < i ==> #[trigger] buffer@[k] == order.spec_i16(
                                bytes@.subrange(2 * k, 2 * k + 2),
                            ),
                    decreases count - i,
                {
                    buffer[i] = order.i16_at(bytes.as_slice(), 2 * i);
                    i += 1;
                }
                Ok(())
            },
            Err(e) => Err(e),
        }
    }

    /// Reads an u32
    fn read_u32(&mut self) -> (result: Result<u32, MrcIoError>)
        ensures
            match result {
                Ok(value) => {
                    &&& old(self).stream().can_read(4)
                    &&& value == old(self).stream().order.spec_u32(old(self).stream().upcoming(4))
                    &&& final(self).stream() == old(self).stream().skip(4)
                },
                Err(e) => {
                    &&& !old(self).stream().can_read(4)
                    &&& e == MrcIoError::ShortRead
                    &&& final(self).stream() == old(self).stream()
                },
            },
    {
        let order = self.byte_order();
        match self.read_exact(4) {
            Ok(bytes) => {
                assert(bytes@.subrange(0, 4) =~= bytes@);
                Ok(order.u32_at(bytes.as_slice(), 0))
            },
            Err(e) => Err(e),
        }
    }

    /// Reads as many u32 as `buffer` holds, into `buffer`.
    fn read_u32_into(&mut self, buffer: &mut [u32]) -> (result: Result<(), MrcIoError>)
        requires
            4 * old(buffer)@.len() <= usize::MAX,
        ensures
            final(buffer)@.len() == old(buffer)@.len(),
            match result {
                Ok(()) => {
                    &&& old(self).stream().can_read(4 * old(buffer)@.len())
                    &&& holds_u32s(
                        old(self).stream().order,
                        old(self).stream().upcoming(4 * old(buffer)@.len()),
                        final(buffer)@,
                    )
                    &&& final(self).stream() == old(self).stream().skip(4 * old(buffer)@.len())
                },
                Err(e) => {
                    &&& !old(self).stream().can_read(4 * old(buffer)@.len())
                    &&& e == MrcIoError::ShortRead
                    &&& final(buffer)@ == old(buffer)@
                    &&& final(self).stream() == old(self).stream()
                },
            },
    {
        let order = self.byte_order();
        let count: usize = buffer.len();
        match self.read_exact(4 * count) {
            Ok(bytes) => {
                let mut i: usize = 0;
                while i < count
                    invariant
                        i <= count,
                        buffer@.len() == count,
                        bytes@.len() == 4 * count <= usize::MAX,
                        forall|k: int|
                            0 <= k < i ==> #[trigger] buffer@[k] == order.spec_u32(
                                bytes@.subrange(4 * k, 4 * k + 4),
                            ),
                    decreases count - i,
                {
                    buffer[i] = order.u32_at(bytes.as_slice(), 4 * i);
                    i += 1;
                }
                Ok(())
            },
            Err(e) => Err(e),
        }
    }

    /// Reads an i32
    fn read_i32(&mut self) -> (result: Result<i32, MrcIoError>)
        ensures
            match result {
                Ok(value) => {
                    &&& old(self).stream().can_read(4)
                    &&& value == old(self).stream().order.spec_i32(old(self).stream().upcoming(4))
                    &&& final(self).stream() == old(self).stream().skip(4)
                },
                Err(e) => {
                    &&& !old(self).stream().can_read(4)
                    &&& e == MrcIoError::ShortRead
                    &&& final(self).stream() == old(self).stream()
                },
            },
    {
        let order = self.byte_order();
        match self.read_exact(4) {
            Ok(bytes) => {
                assert(bytes@.subrange(0, 4) =~= bytes@);
                Ok(order.i32_at(bytes.as_slice(), 0))
            },
            Err(e) => Err(e),
        }
    }

    /// Reads as many i32 as `buffer` holds, into `buffer`.
    fn read_i32_into(&mut self, buffer: &mut [i32]) -> (result: Result<(), MrcIoError>)
        requires
            4 * old(buffer)@.len() <= usize::MAX,
        ensures
            final(buffer)@.len() == old(buffer)@.len(),
            match result {
                Ok(()) => {
                    &&& old(self).stream().can_read(4 * old(buffer)@.len())
                    &&& holds_i32s(
                        old(self).stream().order,
                        old(self).stream().upcoming(4 * old(buffer)@.len()),
                        final(buffer)@,
                    )
                    &&& final(self).stream() == old(self).stream().skip(4 * old(buffer)@.len())
                },
                Err(e) => {
                    &&& !old(self).stream().can_read(4 * old(buffer)@.len())
                    &&& e == MrcIoError::ShortRead
                    &&& final(buffer)@ == old(buffer)@
                    &&& final(self).stream() == old(self).stream()
                },
            },
    {
        let order = self.byte_order();
        let count: usize = buffer.len();
        match self.read_exact(4 * count) {
            Ok(bytes) => {
                let mut i: usize = 0;
                while i < count
                    invariant
                        i <= count,
                        buffer@.len() == count,
                        bytes@.len() == 4 * count <= usize::MAX,
                        forall|k: int|
                            0 <= k < i ==> #[trigger] buffer@[k] == order.spec_i32(
                                bytes@.subrange(4 * k, 4 * k + 4),
                            ),
                    decreases count - i,
                {
                    buffer[i] = order.i32_at(bytes.as_slice(), 4 * i);
                    i += 1;
                }
                Ok(())
            },
            Err(e) => Err(e),
        }
    }

    /// Reads an u64
    fn read_u64(&mut self) -> (result: Result<u64, MrcIoError>)
        ensures
            match result {
                Ok(value) => {
                    &&& old(self).stream().can_read(8)
                    &&& value == old(self).stream().order.spec_u64(old(self).stream().upcoming(8))
                    &&& final(self).stream() == old(self).stream().skip(8)
                },
                Err(e) => {
                    &&& !old(self).stream().can_read(8)
                    &&& e == MrcIoError::ShortRead
                    &&& final(self).stream() == old(self).stream()
                },
            },
    {
        let order = self.byte_order();
        match self.read_exact(8) {
            Ok(bytes) => {
                assert(bytes@.subrange(0, 8) =~= bytes@);
                Ok(order.u64_at(bytes.as_slice(), 0))
            },
            Err(e) => Err(e),
        }
    }

    /// Reads as many u64 as `buffer` holds, into `buffer`.
    fn read_u64_into(&mut self, buffer: &mut [u64]) -> (result: Result<(), MrcIoError>)
        requires
            8 * old(buffer)@.len() <= usize::MAX,
        ensures
            final(buffer)@.len() == old(buffer)@.len(),
            match result {
                Ok(()) => {
                    &&& old(self).stream().can_read(8 * old(buffer)@.len())
                    &&& holds_u64s(
                        old(self).stream().order,
                        old(self).stream().upcoming(8 * old(buffer)@.len()),
                        final(buffer)@,
                    )
                    &&& final(self).stream() == old(self).stream().skip(8 * old(buffer)@.len())
                },
                Err(e) => {
                    &&& !old(self).stream().can_read(8 * old(buffer)@.len())
                    &&& e == MrcIoError::ShortRead
                    &&& final(buffer)@ == old(buffer)@
                    &&& final(self).stream() == old(self).stream()
                },
            },
    {
        let order = self.byte_order();
        let count: usize = buffer.len();
        match self.read_exact(8 * count) {
            Ok(bytes) => {
                let mut i: usize = 0;
                while i < count
                    invariant
                        i <= count,
                        buffer@.len() == count,
                        bytes@.len() == 8 * count <= usize::MAX,
                        forall|k: int|
                            0 <= k < i ==> #[trigger] buffer@[k] == order.spec_u64(
                                bytes@.subrange(8 * k, 8 * k + 8),
                            ),
                    decreases count - i,
                {
                    buffer[i] = order.u64_at(bytes.as_slice(), 8 * i);
                    i += 1;
                }
                Ok(())
            },
            Err(e) => Err(e),
        }
    }

    /// Reads an f32, and returns the bits of its IEEE 754 encoding.
    fn read_f32(&mut self) -> (result: Result<u32, MrcIoError>)
        ensures
            match result {
                Ok(value) => {
                    &&& old(self).stream().can_read(4)
                    &&& value == old(self).stream().order.spec_u32(old(self).stream().upcoming(4))
                    &&& final(self).stream() == old(self).stream().skip(4)
                },
                Err(e) => {
                    &&& !old(self).stream().can_read(4)
                    &&& e == MrcIoError::ShortRead
                    &&& final(self).stream() == old(self).stream()
                },
            },
    {
        self.read_u32()
    }

    /// Reads as many f32 as `buffer` holds, into `buffer`, each as the bits of
    /// its IEEE 754 encoding.
    fn read_f32_into(&mut self, buffer: &mut [u32]) -> (result: Result<(), MrcIoError>)
        requires
            4 * old(buffer)@.len() <= usize::MAX,
        ensures
            final(buffer)@.len() == old(buffer)@.len(),
            match result {
                Ok(()) => {
                    &&& old(self).stream().can_read(4 * old(buffer)@.len())
                    &&& holds_u32s(
                        old(self).stream().order,
                        old(self).stream().upcoming(4 * old(buffer)@.len()),
                        final(buffer)@,
                    )
                    &&& final(self).stream() == old(self).stream().skip(4 * old(buffer)@.len())
                },
                Err(e) => {
                    &&& !old(self).stream().can_read(4 * old(buffer)@.len())
                    &&& e == MrcIoError::ShortRead
                    &&& final(buffer)@ == old(buffer)@
                    &&& final(self).stream() == old(self).stream()
                },
            },
    {
        self.read_u32_into(buffer)
    }

    /// Reads an f64, and returns the bits of its IEEE 754 encoding.
    fn read_f64(&mut self) -> (result: Result<u64, MrcIoError>)
        ensures
            match result {
                Ok(value) => {
                    &&& old(self).stream().can_read(8)
                    &&& value == old(self).stream().order.spec_u64(old(self).stream().upcoming(8))
                    &&& final(self).stream() == old(self).stream().skip(8)
                },
                Err(e) => {
                    &&& !old(self).stream().can_read(8)
                    &&& e == MrcIoError::ShortRead
                    &&& final(self).stream() == old(self).stream()
                },
            },
    {
        self.read_u64()
    }

    /// Reads as many f64 as `buffer` holds, into `buffer`, each as the bits of
    /// its IEEE 754 encoding.
    fn read_f64_into(&mut self, buffer: &mut [u64]) -> (result: Result<(), MrcIoError>)
        requires
            8 * old(buffer)@.len() <= usize::MAX,
        ensures
            final(buffer)@.len() == old(buffer)@.len(),
            match result {
                Ok(()) => {
                    &&& old(self).stream().can_read(8 * old(buffer)@.len())
                    &&& holds_u64s(
                        old(self).stream().order,
                        old(self).stream().upcoming(8 * old(buffer)@.len()),
                        final(buffer)@,
                    )
                    &&& final(self).stream() == old(self).stream().skip(8 * old(buffer)@.len())
                },
                Err(e) => {
                    &&& !old(self).stream().can_read(8 * old(buffer)@.len())
                    &&& e == MrcIoError::ShortRead
                    &&& final(buffer)@ == old(buffer)@
                    &&& final(self).stream() == old(self).stream()
                },
            },
    {
        self.read_u64_into(buffer)
    }

    /// Reads as many bytes as `buffer` holds, into `buffer`.
    fn read_u8_into(&mut self, buffer: &mut [u8]) -> (result: Result<(), MrcIoError>)
        ensures
            final(buffer)@.len() == old(buffer)@.len(),
            match result {
                Ok(()) => {
                    &&& old(self).stream().can_read(old(buffer)@.len())
                    &&& final(buffer)@ == old(self).stream().upcoming(old(buffer)@.len())
                    &&& final(self).stream() == old(self).stream().skip(old(buffer)@.len())
                },
                Err(e) => {
                    &&& !old(self).stream().can_read(old(buffer)@.len())
                    &&& e == MrcIoError::ShortRead
                    &&& final(buffer)@ == old(buffer)@
                    &&& final(self).stream() == old(self).stream()
                },
            },
    {
        let count: usize = buffer.len();
        match self.read_exact(count) {
            Ok(bytes) => {
                let mut i: usize = 0;
                while i < count
                    invariant
                        i <= count,
                        buffer@.len() == count,
                        bytes@.len() == count,
                        forall|k: int| 0 <= k < i ==> #[trigger] buffer@[k] == bytes@[k],
                    decreases count - i,
                {
                    buffer[i] = bytes[i];
                    i += 1;
                }
                assert(buffer@ =~= bytes@);
                Ok(())
            },
            Err(e) => Err(e),
        }
    }

    /// Reads as many i8 as `buffer` holds, into `buffer`.
    fn read_i8_into(&mut self, buffer: &mut [i8]) -> (result: Result<(), MrcIoError>)
        ensures
            final(buffer)@.len() == old(buffer)@.len(),
            match result {
                Ok(()) => {
                    &&& old(self).stream().can_read(old(buffer)@.len())
                    &&& holds_i8s(old(self).stream().upcoming(old(buffer)@.len()), final(buffer)@)
                    &&& final(self).stream() == old(self).stream().skip(old(buffer)@.len())
                },
                Err(e) => {
                    &&& !old(self).stream().can_read(old(buffer)@.len())
                    &&& e == MrcIoError::ShortRead
                    &&& final(buffer)@ == old(buffer)@
                    &&& final(self).stream() == old(self).stream()
                },
            },
    {
        let count: usize = buffer.len();
        match self.read_exact(count) {
            Ok(bytes) => {
                let mut i: usize = 0;
                while i < count
                    invariant
                        i <= count,
                        buffer@.len() == count,
                        bytes@.len() == count,
                        forall|k: int| 0 <= k < i ==> #[trigger] buffer@[k] == spec_i8(bytes@[k]),
                    decreases count - i,
                {
                    buffer[i] = i8_of(bytes[i]);
                    i += 1;
                }
                Ok(())
            },
            Err(e) => Err(e),
        }
    }
}

/// Reader that is aware of the byte order, over bytes held in memory.
#[derive(Debug)]
pub struct SmartReader {
    reader: Vec<u8>,
    position: usize,
    byte_order: ByteOrder,
}

impl SmartReader {
    /// Wraps a reader
    pub fn wrap(reader: Vec<u8>, byte_order: ByteOrder) -> (wrapped: SmartReader)
        ensures
            wrapped.stream() == (Stream { source: reader@, position: 0, order: byte_order }),
    {
        SmartReader { reader, position: 0, byte_order }
    }

    /// Moves to the byte at `position`, counted from the start of the
    /// source. A position behind the end of the source is refused.
    pub fn seek(&mut self, position: u64) -> (result: Result<u64, MrcIoError>)
        ensures
            match result {
                Ok(reached) => {
                    &&& position <= old(self).stream().source.len()
                    &&& reached == position
                    &&& final(self).stream() == (Stream {
                        position: position as nat,
                        ..old(self).stream()
                    })
                },
                Err(e) => {
                    &&& position > old(self).stream().source.len()
                    &&& e == MrcIoError::SeekFailed
                    &&& final(self).stream() == old(self).stream()
                },
            },
    {
        let length: usize = self.reader.len();
        if position > length as u64 {
            return Err(MrcIoError::SeekFailed);
        }
        self.position = position as usize;
        Ok(position)
    }

    /// The source is held in memory, so its length is one that a number
    /// can hold.
    pub proof fn lemma_source_fits(&self)
        ensures
            self.stream().source.len() <= usize::MAX,
    {
        assert(self.reader@.len() == self.reader.len());
    }

    /// The number of bytes in the source.
    pub fn len(&self) -> (length: usize)
        ensures
            length == self.stream().source.len(),
    {
        self.reader.len()
    }

    /// The position of the next read.
    pub fn position(&self) -> (position: usize)
        ensures
            position == self.stream().position,
    {
        self.position
    }

    /// Gives the source back.
    pub fn into_inner(self) -> (reader: Vec<u8>)
        ensures
            reader@ == self.stream().source,
    {
        self.reader
    }
}

impl EndianReader for SmartReader {
    closed spec fn stream(&self) -> Stream {
        Stream { source: self.reader@, position: self.position as nat, order: self.byte_order }
    }

    fn byte_order(&self) -> (order: ByteOrder) {
        self.byte_order
    }

    fn read_exact(&mut self, count: usize) -> (result: Result<Vec<u8>, MrcIoError>) {
        let length: usize = self.reader.len();
        if self.position > length || count > length - self.position {
            return Err(MrcIoError::ShortRead);
        }
        let mut bytes: Vec<u8> = Vec::with_capacity(count);
        let start: usize = self.position;
        let mut i: usize = 0;
        while i < count
            invariant
                i <= count,
                start + count <= self.reader@.len() <= usize::MAX,
                bytes@ == self.reader@.subrange(start as int, start + i),
            decreases count - i,
        {
            bytes.push(self.reader[start + i]);
            i += 1;
            assert(bytes@ =~= self.reader@.subrange(start as int, start + i));
        }
        self.position = start + count;
        Ok(bytes)
    }
}


} // verus!
