//! Decoded numbers, owned and borrowed.

use crate::decoder::limits::Limits;
use crate::decoder::stream::{
    holds_i16s, holds_i32s, holds_i8s, holds_u16s, holds_u32s, holds_u64s, ByteOrder,
    EndianReader, Stream,
};
use crate::error::{MrcError, MrcErrorView, MrcIoError, MrcResult};
use crate::registry::ElementType;
use vstd::prelude::*;

verus! {

/// Result of a decoding process
#[derive(Debug, PartialEq)]
pub enum DecodingResult {
    /// A vector of unsigned bytes
    U8(Vec<u8>),
    /// A vector of unsigned words
    U16(Vec<u16>),
    /// A vector of 32 bit unsigned ints
    U32(Vec<u32>),
    /// A vector of 64 bit unsigned ints
    U64(Vec<u64>),
    /// A vector of 32 bit IEEE floats, each held as its bits
    F32(Vec<u32>),
    /// A vector of 64 bit IEEE floats, each held as its bits
    F64(Vec<u64>),
    /// A vector of signed bytes
    I8(Vec<i8>),
    /// A vector of signed words
    I16(Vec<i16>),
    /// A vector of 32 bit signed ints
    I32(Vec<i32>),
}

/// A buffer for image decoding
pub enum DecodingBuffer<'a> {
    /// A slice of unsigned bytes
    U8(&'a mut [u8]),
    /// A slice of unsigned words
    U16(&'a mut [u16]),
    /// A slice of 32 bit unsigned ints
    U32(&'a mut [u32]),
    /// A slice of 64 bit unsigned ints
    U64(&'a mut [u64]),
    /// A slice of 32 bit IEEE floats, each held as its bits
    F32(&'a mut [u32]),
    /// A slice of 64 bit IEEE floats, each held as its bits
    F64(&'a mut [u64]),
    /// A slice of signed bytes
    I8(&'a mut [i8]),
    /// A slice of signed words
    I16(&'a mut [i16]),
    /// A slice of 32 bit signed ints
    I32(&'a mut [i32]),
}

/// The numbers of a buffer, as a mathematical value.
pub ghost enum Numbers {
    U8(Seq<u8>),
    U16(Seq<u16>),
    U32(Seq<u32>),
    U64(Seq<u64>),
    F32(Seq<u32>),
    F64(Seq<u64>),
    I8(Seq<i8>),
    I16(Seq<i16>),
    I32(Seq<i32>),
}

impl Numbers {
    /// How many numbers there are.
    pub open spec fn len(self) -> nat {
        match self {
            Numbers::U8(values) => values.len(),
            Numbers::U16(values) => values.len(),
            Numbers::U32(values) => values.len(),
            Numbers::U64(values) => values.len(),
            Numbers::F32(values) => values.len(),
            Numbers::F64(values) => values.len(),
            Numbers::I8(values) => values.len(),
            Numbers::I16(values) => values.len(),
            Numbers::I32(values) => values.len(),
        }
    }

    /// The number of bytes that one of the numbers takes in a file.
    pub open spec fn byte_len(self) -> nat {
        match self {
            Numbers::U8(_) => 1,
            Numbers::U16(_) => 2,
            Numbers::U32(_) => 4,
            Numbers::U64(_) => 8,
            Numbers::F32(_) => 4,
            Numbers::F64(_) => 8,
            Numbers::I8(_) => 1,
            Numbers::I16(_) => 2,
            Numbers::I32(_) => 4,
        }
    }

    /// The numbers from the one at `start` on.
    pub open spec fn skip(self, start: int) -> Numbers {
        match self {
            Numbers::U8(values) => Numbers::U8(values.skip(start)),
            Numbers::U16(values) => Numbers::U16(values.skip(start)),
            Numbers::U32(values) => Numbers::U32(values.skip(start)),
            Numbers::U64(values) => Numbers::U64(values.skip(start)),
            Numbers::F32(values) => Numbers::F32(values.skip(start)),
            Numbers::F64(values) => Numbers::F64(values.skip(start)),
            Numbers::I8(values) => Numbers::I8(values.skip(start)),
            Numbers::I16(values) => Numbers::I16(values.skip(start)),
            Numbers::I32(values) => Numbers::I32(values.skip(start)),
        }
    }

    /// The numbers before the one at `end`.
    pub open spec fn take(self, end: int) -> Numbers {
        match self {
            Numbers::U8(values) => Numbers::U8(values.take(end)),
            Numbers::U16(values) => Numbers::U16(values.take(end)),
            Numbers::U32(values) => Numbers::U32(values.take(end)),
            Numbers::U64(values) => Numbers::U64(values.take(end)),
            Numbers::F32(values) => Numbers::F32(values.take(end)),
            Numbers::F64(values) => Numbers::F64(values.take(end)),
            Numbers::I8(values) => Numbers::I8(values.take(end)),
            Numbers::I16(values) => Numbers::I16(values.take(end)),
            Numbers::I32(values) => Numbers::I32(values.take(end)),
        }
    }

    /// These numbers and then those of `other`, which are of the same kind.
    pub open spec fn followed_by(self, other: Numbers) -> Numbers {
        match (self, other) {
            (Numbers::U8(a), Numbers::U8(b)) => Numbers::U8(a + b),
            (Numbers::U16(a), Numbers::U16(b)) => Numbers::U16(a + b),
            (Numbers::U32(a), Numbers::U32(b)) => Numbers::U32(a + b),
            (Numbers::U64(a), Numbers::U64(b)) => Numbers::U64(a + b),
            (Numbers::F32(a), Numbers::F32(b)) => Numbers::F32(a + b),
            (Numbers::F64(a), Numbers::F64(b)) => Numbers::F64(a + b),
            (Numbers::I8(a), Numbers::I8(b)) => Numbers::I8(a + b),
            (Numbers::I16(a), Numbers::I16(b)) => Numbers::I16(a + b),
            (Numbers::I32(a), Numbers::I32(b)) => Numbers::I32(a + b),
            _ => self,
        }
    }

    /// Whether these are `count` zeros.
    pub open spec fn zeros(self, count: nat) -> bool {
        &&& self.len() == count
        &&& match self {
            Numbers::U8(values) => forall|i: int| 0 <= i < count ==> values[i] == 0,
            Numbers::U16(values) => forall|i: int| 0 <= i < count ==> values[i] == 0,
            Numbers::U32(values) => forall|i: int| 0 <= i < count ==> values[i] == 0,
            Numbers::U64(values) => forall|i: int| 0 <= i < count ==> values[i] == 0,
            Numbers::F32(values) => forall|i: int| 0 <= i < count ==> values[i] == 0,
            Numbers::F64(values) => forall|i: int| 0 <= i < count ==> values[i] == 0,
            Numbers::I8(values) => forall|i: int| 0 <= i < count ==> values[i] == 0,
            Numbers::I16(values) => forall|i: int| 0 <= i < count ==> values[i] == 0,
            Numbers::I32(values) => forall|i: int| 0 <= i < count ==> values[i] == 0,
        }
    }

    /// Whether these are the numbers that `bytes` hold in the byte order
    /// `order`, one after the other.
    pub open spec fn read_from(self, order: ByteOrder, bytes: Seq<u8>) -> bool {
        match self {
            Numbers::U8(values) => bytes == values,
            Numbers::U16(values) => holds_u16s(order, bytes, values),
            Numbers::U32(values) => holds_u32s(order, bytes, values),
            Numbers::U64(values) => holds_u64s(order, bytes, values),
            Numbers::F32(values) => holds_u32s(order, bytes, values),
            Numbers::F64(values) => holds_u64s(order, bytes, values),
            Numbers::I8(values) => holds_i8s(bytes, values),
            Numbers::I16(values) => holds_i16s(order, bytes, values),
            Numbers::I32(values) => holds_i32s(order, bytes, values),
        }
    }

    /// The type of the numbers, where a pixel can be made of them.
    pub open spec fn element(self) -> Option<ElementType> {
        match self {
            Numbers::U8(_) => Some(ElementType::Uint8),
            Numbers::U16(_) => Some(ElementType::Uint16),
            Numbers::U32(_) => None,
            Numbers::U64(_) => None,
            Numbers::F32(_) => Some(ElementType::Float32),
            Numbers::F64(_) => Some(ElementType::Float64),
            Numbers::I8(_) => Some(ElementType::Int8),
            Numbers::I16(_) => Some(ElementType::Int16),
            Numbers::I32(_) => Some(ElementType::Int32),
        }
    }
}

/// What a read into a buffer does: it fills the buffer with the numbers that
/// the next bytes of the stream hold and moves behind them, or, where the
/// stream is too short, fails and changes nothing.
pub open spec fn fills(
    before: Stream,
    after: Stream,
    result: Result<(), MrcIoError>,
    old_numbers: Numbers,
    new_numbers: Numbers,
) -> bool {
    let count = old_numbers.len() * old_numbers.byte_len();
    &&& new_numbers.len() == old_numbers.len()
    &&& match result {
        Ok(()) => {
            &&& before.can_read(count)
            &&& new_numbers.read_from(before.order, before.upcoming(count))
            &&& after == before.skip(count)
        },
        Err(e) => {
            &&& !before.can_read(count)
            &&& e == MrcIoError::ShortRead
            &&& new_numbers == old_numbers
            &&& after == before
        },
    }
}

impl View for DecodingResult {
    type V = Numbers;

    open spec fn view(&self) -> Numbers {
        match self {
            DecodingResult::U8(values) => Numbers::U8(values@),
            DecodingResult::U16(values) => Numbers::U16(values@),
            DecodingResult::U32(values) => Numbers::U32(values@),
            DecodingResult::U64(values) => Numbers::U64(values@),
            DecodingResult::F32(values) => Numbers::F32(values@),
            DecodingResult::F64(values) => Numbers::F64(values@),
            DecodingResult::I8(values) => Numbers::I8(values@),
            DecodingResult::I16(values) => Numbers::I16(values@),
            DecodingResult::I32(values) => Numbers::I32(values@),
        }
    }
}

impl DecodingResult {
    /// A buffer of `size` zeros, unless it would take more bytes than the
    /// limits admit.
    pub fn new_u8(size: usize, limits: &Limits) -> (result: MrcResult<DecodingResult>)
        ensures
            result is Ok <==> limits.admits_buffer((size * 1) as nat),
            result matches Ok(buffer) ==> buffer@ is U8 && buffer@.zeros(size as nat),
            result matches Err(e) ==> e@ == MrcErrorView::LimitsExceeded,
    {
        if size > limits.decoding_buffer_size / 1 {
            Err(MrcError::LimitsExceeded)
        } else {
            Ok(DecodingResult::U8(vec![0; size]))
        }
    }

    /// A buffer of `size` zeros, unless it would take more bytes than the
    /// limits admit.
    pub fn new_u16(size: usize, limits: &Limits) -> (result: MrcResult<DecodingResult>)
        ensures
            result is Ok <==> limits.admits_buffer((size * 2) as nat),
            result matches Ok(buffer) ==> buffer@ is U16 && buffer@.zeros(size as nat),
            result matches Err(e) ==> e@ == MrcErrorView::LimitsExceeded,
    {
        if size > limits.decoding_buffer_size / 2 {
            Err(MrcError::LimitsExceeded)
        } else {
            Ok(DecodingResult::U16(vec![0; size]))
        }
    }

    /// A buffer of `size` zeros, unless it would take more bytes than the
    /// limits admit.
    pub fn new_u32(size: usize, limits: &Limits) -> (result: MrcResult<DecodingResult>)
        ensures
            result is Ok <==> limits.admits_buffer((size * 4) as nat),
            result matches Ok(buffer) ==> buffer@ is U32 && buffer@.zeros(size as nat),
            result matches Err(e) ==> e@ == MrcErrorView::LimitsExceeded,
    {
        if size > limits.decoding_buffer_size / 4 {
            Err(MrcError::LimitsExceeded)
        } else {
            Ok(DecodingResult::U32(vec![0; size]))
        }
    }

    /// A buffer of `size` zeros, unless it would take more bytes than the
    /// limits admit.
    pub fn new_u64(size: usize, limits: &Limits) -> (result: MrcResult<DecodingResult>)
        ensures
            result is Ok <==> limits.admits_buffer((size * 8) as nat),
            result matches Ok(buffer) ==> buffer@ is U64 && buffer@.zeros(size as nat),
            result matches Err(e) ==> e@ == MrcErrorView::LimitsExceeded,
    {
        if size > limits.decoding_buffer_size / 8 {
            Err(MrcError::LimitsExceeded)
        } else {
            Ok(DecodingResult::U64(vec![0; size]))
        }
    }

    /// A buffer of `size` zeros, unless it would take more bytes than the
    /// limits admit.
    pub fn new_f32(size: usize, limits: &Limits) -> (result: MrcResult<DecodingResult>)
        ensures
            result is Ok <==> limits.admits_buffer((size * 4) as nat),
            result matches Ok(buffer) ==> buffer@ is F32 && buffer@.zeros(size as nat),
            result matches Err(e) ==> e@ == MrcErrorView::LimitsExceeded,
    {
        if size > limits.decoding_buffer_size / 4 {
            Err(MrcError::LimitsExceeded)
        } else {
            Ok(DecodingResult::F32(vec![0; size]))
        }
    }

    /// A buffer of `size` zeros, unless it would take more bytes than the
    /// limits admit.
    pub fn new_f64(size: usize, limits: &Limits) -> (result: MrcResult<DecodingResult>)
        ensures
            result is Ok <==> limits.admits_buffer((size * 8) as nat),
            result matches Ok(buffer) ==> buffer@ is F64 && buffer@.zeros(size as nat),
            result matches Err(e) ==> e@ == MrcErrorView::LimitsExceeded,
    {
        if size > limits.decoding_buffer_size / 8 {
            Err(MrcError::LimitsExceeded)
        } else {
            Ok(DecodingResult::F64(vec![0; size]))
        }
    }

    /// A buffer of `size` zeros, unless it would take more bytes than the
    /// limits admit.
    pub fn new_i8(size: usize, limits: &Limits) -> (result: MrcResult<DecodingResult>)
        ensures
            result is Ok <==> limits.admits_buffer((size * 1) as nat),
            result matches Ok(buffer) ==> buffer@ is I8 && buffer@.zeros(size as nat),
            result matches Err(e) ==> e@ == MrcErrorView::LimitsExceeded,
    {
        if size > limits.decoding_buffer_size / 1 {
            Err(MrcError::LimitsExceeded)
        } else {
            Ok(DecodingResult::I8(vec![0; size]))
        }
    }

    /// A buffer of `size` zeros, unless it would take more bytes than the
    /// limits admit.
    pub fn new_i16(size: usize, limits: &Limits) -> (result: MrcResult<DecodingResult>)
        ensures
            result is Ok <==> limits.admits_buffer((size * 2) as nat),
            result matches Ok(buffer) ==> buffer@ is I16 && buffer@.zeros(size as nat),
            result matches Err(e) ==> e@ == MrcErrorView::LimitsExceeded,
    {
        if size > limits.decoding_buffer_size / 2 {
            Err(MrcError::LimitsExceeded)
        } else {
            Ok(DecodingResult::I16(vec![0; size]))
        }
    }

    /// A buffer of `size` zeros, unless it would take more bytes than the
    /// limits admit.
    pub fn new_i32(size: usize, limits: &Limits) -> (result: MrcResult<DecodingResult>)
        ensures
            result is Ok <==> limits.admits_buffer((size * 4) as nat),
            result matches Ok(buffer) ==> buffer@ is I32 && buffer@.zeros(size as nat),
            result matches Err(e) ==> e@ == MrcErrorView::LimitsExceeded,
    {
        if size > limits.decoding_buffer_size / 4 {
            Err(MrcError::LimitsExceeded)
        } else {
            Ok(DecodingResult::I32(vec![0; size]))
        }
    }

    /// A buffer of `size` zeros of the type `element`, unless it would take
    /// more bytes than the limits admit.
    pub fn zeroed(element: ElementType, size: usize, limits: &Limits) -> (result: MrcResult<
        DecodingResult,
    >)
        ensures
            result is Ok <==> limits.admits_buffer((size * element.spec_width()) as nat),
            result matches Ok(buffer) ==> buffer@.element() == Some(element) && buffer@.zeros(
                size as nat,
            ),
            result matches Err(e) ==> e@ == MrcErrorView::LimitsExceeded,
    {
        match element {
            ElementType::Uint8 => DecodingResult::new_u8(size, limits),
            ElementType::Uint16 => DecodingResult::new_u16(size, limits),
            ElementType::Float32 => DecodingResult::new_f32(size, limits),
            ElementType::Float64 => DecodingResult::new_f64(size, limits),
            ElementType::Int8 => DecodingResult::new_i8(size, limits),
            ElementType::Int16 => DecodingResult::new_i16(size, limits),
            ElementType::Int32 => DecodingResult::new_i32(size, limits),
        }
    }

    /// How many numbers the buffer holds.
    pub fn len(&self) -> (count: usize)
        ensures
            count == self@.len(),
    {
        match self {
            DecodingResult::U8(values) => values.len(),
            DecodingResult::U16(values) => values.len(),
            DecodingResult::U32(values) => values.len(),
            DecodingResult::U64(values) => values.len(),
            DecodingResult::F32(values) => values.len(),
            DecodingResult::F64(values) => values.len(),
            DecodingResult::I8(values) => values.len(),
            DecodingResult::I16(values) => values.len(),
            DecodingResult::I32(values) => values.len(),
        }
    }

    /// Lends the numbers from the one at `start` on. What is written to
    /// them is found in this buffer, behind the numbers before `start`,
    /// which stay as they are.
    pub fn as_buffer(&mut self, start: usize) -> (buffer: DecodingBuffer<'_>)
        requires
            start <= old(self)@.len(),
        ensures
            buffer.numbers() == old(self)@.skip(start as int),
            match buffer {
                DecodingBuffer::U8(lent) => final(self)@ == old(self)@.take(
                    start as int,
                ).followed_by(Numbers::U8(final(lent)@)),
                DecodingBuffer::U16(lent) => final(self)@ == old(self)@.take(
                    start as int,
                ).followed_by(Numbers::U16(final(lent)@)),
                DecodingBuffer::U32(lent) => final(self)@ == old(self)@.take(
                    start as int,
                ).followed_by(Numbers::U32(final(lent)@)),
                DecodingBuffer::U64(lent) => final(self)@ == old(self)@.take(
                    start as int,
                ).followed_by(Numbers::U64(final(lent)@)),
                DecodingBuffer::F32(lent) => final(self)@ == old(self)@.take(
                    start as int,
                ).followed_by(Numbers::F32(final(lent)@)),
                DecodingBuffer::F64(lent) => final(self)@ == old(self)@.take(
                    start as int,
                ).followed_by(Numbers::F64(final(lent)@)),
                DecodingBuffer::I8(lent) => final(self)@ == old(self)@.take(
                    start as int,
                ).followed_by(Numbers::I8(final(lent)@)),
                DecodingBuffer::I16(lent) => final(self)@ == old(self)@.take(
                    start as int,
                ).followed_by(Numbers::I16(final(lent)@)),
                DecodingBuffer::I32(lent) => final(self)@ == old(self)@.take(
                    start as int,
                ).followed_by(Numbers::I32(final(lent)@)),
            },
    {
        match self {
            DecodingResult::U8(values) => DecodingBuffer::U8(
                values.as_mut_slice().split_at_mut(start).1,
            ),
            DecodingResult::U16(values) => DecodingBuffer::U16(
                values.as_mut_slice().split_at_mut(start).1,
            ),
            DecodingResult::U32(values) => DecodingBuffer::U32(
                values.as_mut_slice().split_at_mut(start).1,
            ),
            DecodingResult::U64(values) => DecodingBuffer::U64(
                values.as_mut_slice().split_at_mut(start).1,
            ),
            DecodingResult::F32(values) => DecodingBuffer::F32(
                values.as_mut_slice().split_at_mut(start).1,
            ),
            DecodingResult::F64(values) => DecodingBuffer::F64(
                values.as_mut_slice().split_at_mut(start).1,
            ),
            DecodingResult::I8(values) => DecodingBuffer::I8(
                values.as_mut_slice().split_at_mut(start).1,
            ),
            DecodingResult::I16(values) => DecodingBuffer::I16(
                values.as_mut_slice().split_at_mut(start).1,
            ),
            DecodingResult::I32(values) => DecodingBuffer::I32(
                values.as_mut_slice().split_at_mut(start).1,
            ),
        }
    }
}

impl<'a> DecodingBuffer<'a> {
    /// The numbers that the buffer holds now.
    pub open spec fn numbers(&self) -> Numbers {
        match self {
            DecodingBuffer::U8(values) => Numbers::U8(values@),
            DecodingBuffer::U16(values) => Numbers::U16(values@),
            DecodingBuffer::U32(values) => Numbers::U32(values@),
            DecodingBuffer::U64(values) => Numbers::U64(values@),
            DecodingBuffer::F32(values) => Numbers::F32(values@),
            DecodingBuffer::F64(values) => Numbers::F64(values@),
            DecodingBuffer::I8(values) => Numbers::I8(values@),
            DecodingBuffer::I16(values) => Numbers::I16(values@),
            DecodingBuffer::I32(values) => Numbers::I32(values@),
        }
    }

    /// How many numbers the buffer holds.
    pub fn len(&self) -> (count: usize)
        ensures
            count == self.numbers().len(),
    {
        match self {
            DecodingBuffer::U8(values) => values.len(),
            DecodingBuffer::U16(values) => values.len(),
            DecodingBuffer::U32(values) => values.len(),
            DecodingBuffer::U64(values) => values.len(),
            DecodingBuffer::F32(values) => values.len(),
            DecodingBuffer::F64(values) => values.len(),
            DecodingBuffer::I8(values) => values.len(),
            DecodingBuffer::I16(values) => values.len(),
            DecodingBuffer::I32(values) => values.len(),
        }
    }

    /// The number of bytes that one number of the buffer takes in a file.
    pub fn byte_len(&self) -> (width: usize)
        ensures
            width == self.numbers().byte_len(),
    {
        match self {
            DecodingBuffer::U8(_) => 1,
            DecodingBuffer::U16(_) => 2,
            DecodingBuffer::U32(_) => 4,
            DecodingBuffer::U64(_) => 8,
            DecodingBuffer::F32(_) => 4,
            DecodingBuffer::F64(_) => 8,
            DecodingBuffer::I8(_) => 1,
            DecodingBuffer::I16(_) => 2,
            DecodingBuffer::I32(_) => 4,
        }
    }

    /// Lends the buffer on. What is written to the numbers that were lent is
    /// found in this buffer.
    pub fn copy<'b>(&'b mut self) -> (buffer: DecodingBuffer<'b>) where 'a: 'b
        ensures
            buffer.numbers() == old(self).numbers(),
            match buffer {
                DecodingBuffer::U8(lent) => final(self).numbers() == Numbers::U8(final(lent)@),
                DecodingBuffer::U16(lent) => final(self).numbers() == Numbers::U16(final(lent)@),
                DecodingBuffer::U32(lent) => final(self).numbers() == Numbers::U32(final(lent)@),
                DecodingBuffer::U64(lent) => final(self).numbers() == Numbers::U64(final(lent)@),
                DecodingBuffer::F32(lent) => final(self).numbers() == Numbers::F32(final(lent)@),
                DecodingBuffer::F64(lent) => final(self).numbers() == Numbers::F64(final(lent)@),
                DecodingBuffer::I8(lent) => final(self).numbers() == Numbers::I8(final(lent)@),
                DecodingBuffer::I16(lent) => final(self).numbers() == Numbers::I16(final(lent)@),
                DecodingBuffer::I32(lent) => final(self).numbers() == Numbers::I32(final(lent)@),
            },
    {
        match self {
            DecodingBuffer::U8(values) => DecodingBuffer::U8(&mut **values),
            DecodingBuffer::U16(values) => DecodingBuffer::U16(&mut **values),
            DecodingBuffer::U32(values) => DecodingBuffer::U32(&mut **values),
            DecodingBuffer::U64(values) => DecodingBuffer::U64(&mut **values),
            DecodingBuffer::F32(values) => DecodingBuffer::F32(&mut **values),
            DecodingBuffer::F64(values) => DecodingBuffer::F64(&mut **values),
            DecodingBuffer::I8(values) => DecodingBuffer::I8(&mut **values),
            DecodingBuffer::I16(values) => DecodingBuffer::I16(&mut **values),
            DecodingBuffer::I32(values) => DecodingBuffer::I32(&mut **values),
        }
    }

    /// Fills the buffer with the numbers that the next bytes of `reader`
    /// hold.
    pub fn fill_from<R: EndianReader>(self, reader: &mut R) -> (result: Result<(), MrcIoError>)
        requires
            self.numbers().len() * self.numbers().byte_len() <= usize::MAX,
        ensures
            match self {
                DecodingBuffer::U8(values) => fills(
                    old(reader).stream(),
                    final(reader).stream(),
                    result,
                    Numbers::U8(values@),
                    Numbers::U8(final(values)@),
                ),
                DecodingBuffer::U16(values) => fills(
                    old(reader).stream(),
                    final(reader).stream(),
                    result,
                    Numbers::U16(values@),
                    Numbers::U16(final(values)@),
                ),
                DecodingBuffer::U32(values) => fills(
                    old(reader).stream(),
                    final(reader).stream(),
                    result,
                    Numbers::U32(values@),
                    Numbers::U32(final(values)@),
                ),
                DecodingBuffer::U64(values) => fills(
                    old(reader).stream(),
                    final(reader).stream(),
                    result,
                    Numbers::U64(values@),
                    Numbers::U64(final(values)@),
                ),
                DecodingBuffer::F32(values) => fills(
                    old(reader).stream(),
                    final(reader).stream(),
                    result,
                    Numbers::F32(values@),
                    Numbers::F32(final(values)@),
                ),
                DecodingBuffer::F64(values) => fills(
                    old(reader).stream(),
                    final(reader).stream(),
                    result,
                    Numbers::F64(values@),
                    Numbers::F64(final(values)@),
                ),
                DecodingBuffer::I8(values) => fills(
                    old(reader).stream(),
                    final(reader).stream(),
                    result,
                    Numbers::I8(values@),
                    Numbers::I8(final(values)@),
                ),
                DecodingBuffer::I16(values) => fills(
                    old(reader).stream(),
                    final(reader).stream(),
                    result,
                    Numbers::I16(values@),
                    Numbers::I16(final(values)@),
                ),
                DecodingBuffer::I32(values) => fills(
                    old(reader).stream(),
                    final(reader).stream(),
                    result,
                    Numbers::I32(values@),
                    Numbers::I32(final(values)@),
                ),
            },
    {
        match self {
            DecodingBuffer::U8(values) => reader.read_u8_into(values),
            DecodingBuffer::U16(values) => reader.read_u16_into(values),
            DecodingBuffer::U32(values) => reader.read_u32_into(values),
            DecodingBuffer::U64(values) => reader.read_u64_into(values),
            DecodingBuffer::F32(values) => reader.read_f32_into(values),
            DecodingBuffer::F64(values) => reader.read_f64_into(values),
            DecodingBuffer::I8(values) => reader.read_i8_into(values),
            DecodingBuffer::I16(values) => reader.read_i16_into(values),
            DecodingBuffer::I32(values) => reader.read_i32_into(values),
        }
    }
}

} // verus!
