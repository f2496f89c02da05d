//! The decoder and the values it hands out.

pub mod buffer;
pub mod header;
pub mod ifd;
pub mod limits;
pub mod section;
pub mod stream;

pub use self::buffer::{DecodingBuffer, DecodingResult};
pub use self::limits::Limits;

use self::header::{
    bad_magic, format_fault, lemma_magic_is_required, spec_fault, spec_i32_at, Header,
    HEADER_LEN, MAGIC_AT, STAMP_AT,
};
use self::section::{
    delivers, lemma_data_follows_extended_header, lemma_section_offsets, Outcome, SectionState, SectionStateView, Volume,
};
use self::stream::{ByteOrder, EndianReader, SmartReader};
use crate::error::{MrcError, MrcErrorView, MrcIoError, MrcResult, MrcUnsupportedError};
use crate::registry::{resolve, spec_resolve, ElementType, PixelFormat};
use crate::Mode;
use vstd::prelude::*;

verus! {

/// Why no decoder can be made for the file `input` under `limits`, if none
/// can: no header can be read from it, or the header declares a mode that
/// stands for no layout of pixels.
pub open spec fn spec_open_fault(input: Seq<u8>, limits: Limits) -> Option<MrcErrorView> {
    match spec_fault(input, limits) {
        Some(fault) => Some(fault),
        None => {
            let fixed = input.take(HEADER_LEN as int);
            let order = ByteOrder::spec_from_stamp(
                fixed.subrange(STAMP_AT as int, STAMP_AT + 4),
            )->Some_0;
            match spec_resolve(spec_i32_at(fixed, order, 12) as i32) {
                Ok(_) => None,
                Err(unsupported) => Some(MrcErrorView::UnsupportedError(unsupported)),
            }
        },
    }
}

/// A file whose header can be read and declares a mode code that stands
/// for no mode gives an unsupported error that names the code, and no
/// format error.
pub proof fn lemma_unknown_mode_is_unsupported(input: Seq<u8>, limits: Limits, header: Header)
    requires
        spec_fault(input, limits).is_none(),
        header.describes(input),
        Mode::spec_from_code(header.mode).is_none(),
    ensures
        spec_open_fault(input, limits) == Some(
            MrcErrorView::UnsupportedError(MrcUnsupportedError::UnrecognizedMode(header.mode)),
        ),
{
}

/// A file without the magic gives a format error when a decoder is made for
/// it, whatever else it holds.
pub proof fn lemma_magic_is_required_to_open(input: Seq<u8>, limits: Limits)
    requires
        input.len() >= HEADER_LEN,
        !(input.subrange(MAGIC_AT as int, MAGIC_AT + 4) =~= seq![0x4Du8, 0x41u8, 0x50u8, 0x20u8]),
    ensures
        spec_open_fault(input, limits) == Some(format_fault(bad_magic())),
{
    lemma_magic_is_required(input, limits);
}

/// Reads the section of `elements` numbers of the type `element` that
/// starts at `offset` in the source of `reader`.
fn read_section(
    reader: &mut SmartReader,
    element: ElementType,
    limits: &Limits,
    offset: u64,
    elements: usize,
) -> (result: MrcResult<DecodingResult>)
    requires
        limits.admits_buffer((elements * element.spec_width()) as nat),
    ensures
        final(reader).stream().source == old(reader).stream().source,
        final(reader).stream().order == old(reader).stream().order,
        match result {
            Ok(section) => {
                &&& offset + elements * element.spec_width() <= old(reader).stream().source.len()
                    <= usize::MAX
                &&& section@.element() == Some(element)
                &&& section@.len() == elements
                &&& section@.read_from(
                    old(reader).stream().order,
                    old(reader).stream().source.subrange(
                        offset as int,
                        offset + elements * element.spec_width(),
                    ),
                )
            },
            Err(e) => {
                &&& offset + elements * element.spec_width() > old(reader).stream().source.len()
                &&& e@ == MrcErrorView::IoError(
                    if offset > old(reader).stream().source.len() {
                        MrcIoError::SeekFailed
                    } else {
                        MrcIoError::ShortRead
                    },
                )
            },
        },
{
    proof {
        reader.lemma_source_fits();
    }
    match reader.seek(offset) {
        Ok(_) => {},
        Err(e) => {
            return Err(MrcError::IoError(e));
        },
    }
    let mut section = DecodingResult::zeroed(element, elements, limits)?;
    let filled = section.as_buffer(0).fill_from(reader);
    match filled {
        Ok(()) => Ok(section),
        Err(e) => Err(MrcError::IoError(e)),
    }
}

/// The representation of a MRC decoder
#[derive(Debug)]
pub struct Decoder {
    reader: SmartReader,
    byte_order: ByteOrder,
    limits: Limits,
    width: u32,
    height: u32,
    header: Header,
    format: PixelFormat,
    state: SectionState,
}

impl Decoder {
    /// The bytes of the file.
    pub closed spec fn source(&self) -> Seq<u8> {
        self.reader.stream().source
    }

    /// The header of the file.
    pub closed spec fn spec_header(&self) -> Header {
        self.header
    }

    /// The limits that the decoder keeps to.
    pub closed spec fn spec_limits(&self) -> Limits {
        self.limits
    }

    /// Where the decoder stands in the sections of its volume.
    pub closed spec fn spec_state(&self) -> SectionStateView {
        self.state@
    }

    /// The file as the steps of decoding see it.
    pub open spec fn volume(&self) -> Volume {
        Volume::of(self.source(), self.spec_header())
    }

    /// Whether the decoder is one that was made from a file: its header is
    /// valid and is the one at the start of the file, the mode of the
    /// header resolves to a layout of pixels, and the decoder stands where
    /// a decoder of its volume can stand.
    pub closed spec fn wf(&self) -> bool {
        &&& self.header.valid()
        &&& self.header.describes(self.source())
        &&& spec_resolve(self.header.mode) == Ok::<PixelFormat, MrcUnsupportedError>(
            self.format,
        )
        &&& self.format.valid()
        &&& self.byte_order == self.header.byte_order
        &&& self.reader.stream().order == self.byte_order
        &&& self.width == self.header.nx
        &&& self.height == self.header.ny
        &&& self.volume().consistent(self.state@)
    }

    /// A decoder for the file `source` that keeps to `limits`, also while
    /// it reads the header.
    pub fn open(source: Vec<u8>, limits: Limits) -> (result: MrcResult<Decoder>)
        ensures
            match result {
                Ok(decoder) => {
                    &&& spec_open_fault(source@, limits).is_none()
                    &&& decoder.wf()
                    &&& decoder.source() == source@
                    &&& decoder.spec_limits() == limits
                    &&& decoder.spec_state() == SectionStateView::NotStarted
                    &&& decoder.spec_header().valid()
                    &&& decoder.spec_header().describes(source@)
                },
                Err(e) => spec_open_fault(source@, limits) == Some(e@),
            },
    {
        let mut reader = SmartReader::wrap(source, ByteOrder::LittleEndian);
        assert(crate::decoder::header::spec_rest(source@, 0) =~= source@);
        let header = Header::parse(&mut reader, &limits)?;
        let format = match resolve(header.mode) {
            Ok(format) => format,
            Err(e) => {
                return Err(MrcError::UnsupportedError(e));
            },
        };
        let byte_order = header.byte_order;
        let reader = SmartReader::wrap(reader.into_inner(), byte_order);
        Ok(
            Decoder {
                reader,
                byte_order,
                limits,
                width: header.nx as u32,
                height: header.ny as u32,
                header,
                format,
                state: SectionState::NotStarted,
            },
        )
    }

    /// Create a new decoder that decodes from the stream ```r```
    pub fn new(r: Vec<u8>) -> (result: MrcResult<Decoder>)
        ensures
            match result {
                Ok(decoder) => {
                    &&& spec_open_fault(r@, Limits::spec_default()).is_none()
                    &&& decoder.wf()
                    &&& decoder.source() == r@
                    &&& decoder.spec_limits() == Limits::spec_default()
                    &&& decoder.spec_state() == SectionStateView::NotStarted
                    &&& decoder.spec_header().valid()
                    &&& decoder.spec_header().describes(r@)
                },
                Err(e) => spec_open_fault(r@, Limits::spec_default()) == Some(e@),
            },
    {
        Decoder::open(r, Limits::default())
    }

    /// Replaces the limits of the decoder.
    pub fn with_limits(self, limits: Limits) -> (decoder: Decoder)
        requires
            self.wf(),
        ensures
            decoder.wf(),
            decoder.spec_limits() == limits,
            decoder.source() == self.source(),
            decoder.spec_header() == self.spec_header(),
            decoder.spec_state() == self.spec_state(),
    {
        let mut decoder = self;
        decoder.limits = limits;
        decoder
    }

    /// The number of columns and the number of rows of a section.
    pub fn dimensions(&self) -> (result: MrcResult<(u32, u32)>)
        requires
            self.wf(),
        ensures
            result matches Ok((width, height)) && width == self.spec_header().nx && height
                == self.spec_header().ny,
    {
        Ok((self.width, self.height))
    }

    /// The header of the file.
    pub fn header(&self) -> (header: &Header)
        ensures
            *header == self.spec_header(),
    {
        &self.header
    }

    /// Where the decoder stands in the sections of its volume.
    pub fn state(&self) -> (state: &SectionState)
        ensures
            state@ == self.spec_state(),
    {
        &self.state
    }

    /// The limits that the decoder keeps to.
    pub fn limits(&self) -> (limits: Limits)
        ensures
            limits == self.spec_limits(),
    {
        self.limits
    }

    /// The number of numbers and the number of bytes of a section, unless
    /// the limits refuse the volume.
    fn measure(&self) -> (result: MrcResult<(usize, usize)>)
        requires
            self.wf(),
        ensures
            match result {
                Ok((elements, bytes)) => {
                    &&& self.volume().admitted(self.spec_limits())
                    &&& elements == self.volume().section_elements()
                    &&& bytes == self.volume().section_bytes()
                    &&& bytes == elements * self.volume().format.element.spec_width()
                },
                Err(e) => !self.volume().admitted(self.spec_limits()) && e@
                    == MrcErrorView::LimitsExceeded,
            },
    {
        let nx: usize = self.header.nx as usize;
        let ny: usize = self.header.ny as usize;
        let nz: usize = self.header.nz as usize;
        let multiplicity: usize = self.format.multiplicity;
        let width: usize = self.format.width;
        let _total: usize = self.limits.check_volume(nx, ny, nz, multiplicity, width)?;
        let bytes: usize = self.limits.check_volume(nx, ny, 1, multiplicity, width)?;
        self.limits.check_read(bytes)?;
        let elements: usize = bytes / width;
        proof {
            let numbers = nx * ny * multiplicity;
            assert(nx * ny * 1 * multiplicity * width == numbers * width) by (nonlinear_arith)
                requires
                    numbers == nx * ny * multiplicity,
            ;
            assert((numbers * width) / (width as int) == numbers) by (nonlinear_arith)
                requires
                    width > 0,
            ;
        }
        Ok((elements, bytes))
    }

    /// Decodes the next section of the volume, or says that there is none
    /// left: `Ok(None)` stands for the end of the volume.
    ///
    /// Sections come in order, each from its place in the file. A section
    /// that cannot be read leaves the decoder failed: it then gives the same
    /// failure at every step and reads nothing. Limits that refuse the
    /// volume leave the decoder as it is.
    pub fn decode_next_section(&mut self) -> (result: MrcResult<Option<DecodingResult>>)
        requires
            old(self).wf(),
        ensures
            final(self).wf(),
            final(self).source() == old(self).source(),
            final(self).spec_header() == old(self).spec_header(),
            final(self).spec_limits() == old(self).spec_limits(),
            final(self).spec_state() == old(self).volume().next(
                old(self).spec_limits(),
                old(self).spec_state(),
            ).0,
            delivers(
                result,
                old(self).volume().next(old(self).spec_limits(), old(self).spec_state()).1,
                old(self).volume(),
            ),
    {
        let (current, total, offset): (u32, u32, u64) = match &self.state {
            SectionState::Failed { error } => {
                return Err(error.clone());
            },
            SectionState::Done => {
                return Ok(None);
            },
            SectionState::NotStarted => {
                if self.header.nz == 0 {
                    self.state = SectionState::Done;
                    return Ok(None);
                }
                proof {
                    lemma_data_follows_extended_header(self.source(), self.header, 0);
                }
                (0, self.header.nz as u32, self.header.data_offset())
            },
            SectionState::Decoding { current_section, total_sections, next_byte_offset } => (
                *current_section,
                *total_sections,
                *next_byte_offset,
            ),
        };
        self.state =
        SectionState::Decoding {
            current_section: current,
            total_sections: total,
            next_byte_offset: offset,
        };
        let (elements, bytes) = self.measure()?;
        match read_section(&mut self.reader, self.format.element, &self.limits, offset, elements) {
            Ok(section) => {
                proof {
                    lemma_section_offsets(old(self).volume(), current as nat);
                }
                self.state =
                if current + 1 == total {
                    SectionState::Done
                } else {
                    SectionState::Decoding {
                        current_section: current + 1,
                        total_sections: total,
                        next_byte_offset: offset + bytes as u64,
                    }
                };
                Ok(Some(section))
            },
            Err(e) => {
                self.state = SectionState::Failed { error: e.clone() };
                Err(e)
            },
        }
    }

    /// Decodes the section `index` of the volume, from its place in the
    /// file. The place of the next section in sequence stays as it is.
    ///
    /// A section that cannot be read leaves the decoder failed: it then
    /// gives the same failure at every step and reads nothing. Limits that
    /// refuse the volume leave the decoder as it is.
    pub fn decode_section(&mut self, index: u32) -> (result: MrcResult<DecodingResult>)
        requires
            old(self).wf(),
        ensures
            final(self).wf(),
            final(self).source() == old(self).source(),
            final(self).spec_header() == old(self).spec_header(),
            final(self).spec_limits() == old(self).spec_limits(),
            final(self).spec_state() == old(self).volume().at(
                old(self).spec_limits(),
                old(self).spec_state(),
                index as nat,
            ).0,
            match old(self).volume().at(
                old(self).spec_limits(),
                old(self).spec_state(),
                index as nat,
            ).1 {
                Outcome::Section { index: _, bytes } => {
                    &&& result matches Ok(section)
                    &&& section@.element() == Some(old(self).volume().format.element)
                    &&& section@.len() == old(self).volume().section_elements()
                    &&& section@.read_from(old(self).volume().order, bytes)
                },
                Outcome::EndOfVolume => false,
                Outcome::Failure { error } => result matches Err(e) && e@ == error,
            },
    {
        if let SectionState::Failed { error } = &self.state {
            return Err(error.clone());
        }
        let (elements, bytes) = self.measure()?;
        let start: u64 = self.header.data_offset();
        proof {
            self.reader.lemma_source_fits();
        }
        let place: Option<u64> = match (index as u64).checked_mul(bytes as u64) {
            Some(skipped) => start.checked_add(skipped),
            None => None,
        };
        let offset: u64 = match place {
            Some(offset) => offset,
            None => {
                let e = MrcError::IoError(MrcIoError::SeekFailed);
                self.state = SectionState::Failed { error: e.clone() };
                return Err(e);
            },
        };
        match read_section(&mut self.reader, self.format.element, &self.limits, offset, elements) {
            Ok(section) => Ok(section),
            Err(e) => {
                self.state = SectionState::Failed { error: e.clone() };
                Err(e)
            },
        }
    }

    /// Initializes the decoder: reads the header again, under the limits
    /// of the decoder, and goes back before the first section.
    pub fn init(self) -> (result: MrcResult<Decoder>)
        ensures
            match result {
                Ok(decoder) => {
                    &&& spec_open_fault(self.source(), self.spec_limits()).is_none()
                    &&& decoder.wf()
                    &&& decoder.source() == self.source()
                    &&& decoder.spec_limits() == self.spec_limits()
                    &&& decoder.spec_state() == SectionStateView::NotStarted
                    &&& decoder.spec_header().valid()
                    &&& decoder.spec_header().describes(self.source())
                },
                Err(e) => spec_open_fault(self.source(), self.spec_limits()) == Some(e@),
            },
    {
        let limits = self.limits;
        Decoder::open(self.reader.into_inner(), limits)
    }
}

} // verus!
