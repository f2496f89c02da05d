//! The states that a decoder goes through while it hands out the sections
//! of a volume, and what each step does.

use crate::decoder::buffer::DecodingResult;
use crate::decoder::header::{Header, HEADER_LEN};
use crate::decoder::limits::{spec_required_bytes, Limits};
use crate::decoder::stream::ByteOrder;
use crate::error::{MrcError, MrcErrorView, MrcIoError, MrcResult};
use crate::registry::{spec_resolve, PixelFormat};
use vstd::prelude::*;

verus! {

/// Where a decoder stands in the sections of its volume.
#[derive(Debug, PartialEq)]
pub enum SectionState {
    /// No section has been asked for yet.
    NotStarted,
    /// The section `current_section` of `total_sections` is the next one,
    /// and its first byte is the one at `next_byte_offset` in the file.
    Decoding { current_section: u32, total_sections: u32, next_byte_offset: u64 },
    /// All sections have been handed out.
    Done,
    /// A section could not be read. Nothing is read after that.
    Failed { error: MrcError },
}

/// What a [`SectionState`] holds, as a mathematical value.
pub ghost enum SectionStateView {
    NotStarted,
    Decoding { current_section: nat, total_sections: nat, next_byte_offset: nat },
    Done,
    Failed { error: MrcErrorView },
}

impl View for SectionState {
    type V = SectionStateView;

    open spec fn view(&self) -> SectionStateView {
        match self {
            SectionState::NotStarted => SectionStateView::NotStarted,
            SectionState::Decoding { current_section, total_sections, next_byte_offset } => {
                SectionStateView::Decoding {
                    current_section: *current_section as nat,
                    total_sections: *total_sections as nat,
                    next_byte_offset: *next_byte_offset as nat,
                }
            },
            SectionState::Done => SectionStateView::Done,
            SectionState::Failed { error } => SectionStateView::Failed { error: error@ },
        }
    }
}

/// A file as the decoder of its sections sees it: its bytes, the byte order
/// of its numbers, the layout of its pixels, its size along the three axes,
/// and the place of the first byte of its pixel data.
pub ghost struct Volume {
    pub source: Seq<u8>,
    pub order: ByteOrder,
    pub format: PixelFormat,
    pub nx: nat,
    pub ny: nat,
    pub nz: nat,
    pub data_offset: nat,
}

/// What a step of decoding gives.
pub ghost enum Outcome {
    /// The section `index`, whose bytes in the file are `bytes`.
    Section { index: nat, bytes: Seq<u8> },
    /// There is no further section. This is no failure.
    EndOfVolume,
    /// The step failed.
    Failure { error: MrcErrorView },
}

impl Volume {
    /// The volume of the file `source` whose header is `header`. Its pixel
    /// data starts behind the fixed header and the extended header.
    pub open spec fn of(source: Seq<u8>, header: Header) -> Volume {
        Volume {
            source,
            order: header.byte_order,
            format: spec_resolve(header.mode)->Ok_0,
            nx: header.nx as nat,
            ny: header.ny as nat,
            nz: header.nz as nat,
            data_offset: (HEADER_LEN + header.nsymbt) as nat,
        }
    }

    /// How many numbers a section holds.
    pub open spec fn section_elements(self) -> nat {
        self.nx * self.ny * self.format.multiplicity as nat
    }

    /// How many bytes a section takes in the file.
    pub open spec fn section_bytes(self) -> nat {
        spec_required_bytes(
            self.nx,
            self.ny,
            1,
            self.format.multiplicity as nat,
            self.format.width as nat,
        )
    }

    /// How many bytes the pixel data takes in the file.
    pub open spec fn total_bytes(self) -> nat {
        spec_required_bytes(
            self.nx,
            self.ny,
            self.nz,
            self.format.multiplicity as nat,
            self.format.width as nat,
        )
    }

    /// Whether the limits let a section be decoded: the pixel data as a
    /// whole and one section are no larger than a decoded buffer may be,
    /// and one section is no larger than one read may be.
    pub open spec fn admitted(self, limits: Limits) -> bool {
        &&& limits.admits_buffer(self.total_bytes())
        &&& limits.admits_buffer(self.section_bytes())
        &&& limits.admits_read(self.section_bytes())
    }

    /// The place in the file of the first byte of the section `index`.
    pub open spec fn section_offset(self, index: nat) -> nat {
        self.data_offset + index * self.section_bytes()
    }

    /// Whether the file holds all the bytes of a section that starts at
    /// `offset`.
    pub open spec fn holds(self, offset: nat) -> bool {
        offset + self.section_bytes() <= self.source.len()
    }

    /// The bytes of a section that starts at `offset`.
    pub open spec fn bytes_at(self, offset: nat) -> Seq<u8> {
        self.source.subrange(offset as int, (offset + self.section_bytes()) as int)
    }

    /// Why a section that starts at `offset` cannot be read from a file
    /// that does not hold all its bytes: the file ends before the section
    /// starts, or within it.
    pub open spec fn read_fault(self, offset: nat) -> MrcIoError {
        if offset > self.source.len() {
            MrcIoError::SeekFailed
        } else {
            MrcIoError::ShortRead
        }
    }

    /// The state in which the first step finds a decoder: before the first
    /// section, or at the end where the volume has no section.
    pub open spec fn entered(self, state: SectionStateView) -> SectionStateView {
        match state {
            SectionStateView::NotStarted => if self.nz == 0 {
                SectionStateView::Done
            } else {
                SectionStateView::Decoding {
                    current_section: 0,
                    total_sections: self.nz,
                    next_byte_offset: self.data_offset,
                }
            },
            _ => state,
        }
    }

    /// What a read of the section `index` at `offset` gives, and the state
    /// that it leaves, where `after` is the state that a read which succeeds
    /// leaves. The limits are consulted first, and where they refuse the
    /// section the state stays as it is. A section that the file does not
    /// hold leaves the decoder failed.
    pub open spec fn read(
        self,
        limits: Limits,
        state: SectionStateView,
        index: nat,
        offset: nat,
        after: SectionStateView,
    ) -> (SectionStateView, Outcome) {
        if !self.admitted(limits) {
            (state, Outcome::Failure { error: MrcErrorView::LimitsExceeded })
        } else if !self.holds(offset) {
            let error = MrcErrorView::IoError(self.read_fault(offset));
            (SectionStateView::Failed { error }, Outcome::Failure { error })
        } else {
            (after, Outcome::Section { index, bytes: self.bytes_at(offset) })
        }
    }

    /// What the step "decode the next section" does in the state `state`:
    /// the state that it leaves, and what it gives.
    ///
    /// A decoder that has failed gives its failure again and reads nothing.
    /// A decoder that is done says so. Otherwise the next section is read,
    /// and the decoder moves on by one section, or is done after the last.
    pub open spec fn next(self, limits: Limits, state: SectionStateView) -> (
        SectionStateView,
        Outcome,
    ) {
        match self.entered(state) {
            SectionStateView::Failed { error } => (
                SectionStateView::Failed { error },
                Outcome::Failure { error },
            ),
            SectionStateView::Done => (SectionStateView::Done, Outcome::EndOfVolume),
            SectionStateView::NotStarted => (SectionStateView::Done, Outcome::EndOfVolume),
            SectionStateView::Decoding { current_section, total_sections, next_byte_offset } => {
                self.read(
                    limits,
                    self.entered(state),
                    current_section,
                    next_byte_offset,
                    if current_section + 1 == total_sections {
                        SectionStateView::Done
                    } else {
                        SectionStateView::Decoding {
                            current_section: current_section + 1,
                            total_sections,
                            next_byte_offset: next_byte_offset + self.section_bytes(),
                        }
                    },
                )
            },
        }
    }

    /// What the step "decode the section `index`" does in the state
    /// `state`: the state that it leaves, and what it gives.
    ///
    /// A decoder that has failed gives its failure again and reads nothing.
    /// Otherwise the section is read from its place in the file, and the
    /// place of the next section in sequence stays as it is.
    pub open spec fn at(self, limits: Limits, state: SectionStateView, index: nat) -> (
        SectionStateView,
        Outcome,
    ) {
        match state {
            SectionStateView::Failed { error } => (state, Outcome::Failure { error }),
            _ => self.read(limits, state, index, self.section_offset(index), state),
        }
    }

    /// The state of a decoder after `steps` steps "decode the next section"
    /// from the state `state`.
    pub open spec fn after(
        self,
        limits: Limits,
        state: SectionStateView,
        steps: nat,
    ) -> SectionStateView
        decreases steps,
    {
        if steps == 0 {
            state
        } else {
            self.next(limits, self.after(limits, state, (steps - 1) as nat)).0
        }
    }

    /// Whether the state is one that a decoder of this volume can be in: a
    /// decoder that is between two sections knows the number of sections,
    /// stands before one of them, and at its place in the file.
    pub open spec fn consistent(self, state: SectionStateView) -> bool {
        match state {
            SectionStateView::Decoding { current_section, total_sections, next_byte_offset } => {
                &&& total_sections == self.nz
                &&& current_section < total_sections
                &&& next_byte_offset == self.section_offset(current_section)
            },
            _ => true,
        }
    }
}

/// Whether `result` is what a step hands to its caller for the outcome
/// `outcome`: for a section, its numbers, decoded from the bytes of the
/// section in the type of the pixel format and in the byte order of the
/// file; at the end of the volume, nothing; for a failure, the failure.
pub open spec fn delivers(
    result: MrcResult<Option<DecodingResult>>,
    outcome: Outcome,
    volume: Volume,
) -> bool {
    match outcome {
        Outcome::Section { index, bytes } => {
            &&& result matches Ok(Some(section))
            &&& section@.element() == Some(volume.format.element)
            &&& section@.len() == volume.section_elements()
            &&& section@.read_from(volume.order, bytes)
        },
        Outcome::EndOfVolume => result matches Ok(None),
        Outcome::Failure { error } => result matches Err(e) && e@ == error,
    }
}

/// A step that fails fails again: after a step "decode the next section"
/// that gave a failure, every further step of either kind gives the same
/// failure and leaves the state as it is.
pub proof fn lemma_failure_repeats(
    volume: Volume,
    limits: Limits,
    state: SectionStateView,
    later: nat,
)
    requires
        volume.next(limits, state).1 is Failure,
    ensures
        volume.next(limits, volume.next(limits, state).0) == volume.next(limits, state),
        volume.at(limits, volume.next(limits, state).0, later) == volume.next(limits, state),
{
}

/// After a step "decode the section `index`" that gave a failure, every
/// further step of that kind gives the same failure and leaves the state as
/// it is, and so does a step "decode the next section", unless the decoder
/// had handed out all its sections before.
pub proof fn lemma_failure_repeats_at(
    volume: Volume,
    limits: Limits,
    state: SectionStateView,
    index: nat,
    later: nat,
)
    requires
        volume.at(limits, state, index).1 is Failure,
    ensures
        volume.at(limits, volume.at(limits, state, index).0, later) == volume.at(
            limits,
            state,
            index,
        ),
        !(volume.entered(state) is Done) ==> volume.next(
            limits,
            volume.at(limits, state, index).0,
        ).1 == volume.at(limits, state, index).1,
{
}

impl Volume {
    /// The state of a decoder that has handed out the first `count`
    /// sections one after the other.
    pub open spec fn handed_out(self, count: nat) -> SectionStateView {
        if count == 0 {
            SectionStateView::NotStarted
        } else if count < self.nz {
            SectionStateView::Decoding {
                current_section: count,
                total_sections: self.nz,
                next_byte_offset: self.section_offset(count),
            }
        } else {
            SectionStateView::Done
        }
    }
}

/// The sections follow each other in the file without a gap, and none
/// starts behind the end of the last.
pub proof fn lemma_section_offsets(volume: Volume, index: nat)
    ensures
        volume.section_offset(index) + volume.section_bytes() == volume.section_offset(index + 1),
        index <= volume.nz ==> volume.section_offset(index) <= volume.section_offset(volume.nz),
{
    let bytes = volume.section_bytes();
    assert(index * bytes + bytes == (index + 1) * bytes) by (nonlinear_arith);
    if index <= volume.nz {
        assert(index * bytes <= volume.nz * bytes) by (nonlinear_arith)
            requires
                index <= volume.nz,
        ;
    }
}

/// Where the limits admit the volume and the file holds all its sections,
/// a decoder is, after `steps` steps "decode the next section", in the
/// state of one that has handed out that many sections, or all of them.
pub proof fn lemma_state_after(volume: Volume, limits: Limits, steps: nat)
    requires
        volume.admitted(limits),
        volume.section_offset(volume.nz) <= volume.source.len(),
    ensures
        volume.after(limits, SectionStateView::NotStarted, steps) == volume.handed_out(steps),
    decreases steps,
{
    if steps > 0 {
        let before = (steps - 1) as nat;
        lemma_state_after(volume, limits, before);
        lemma_section_offsets(volume, before);
        lemma_section_offsets(volume, steps);
        lemma_section_offsets(volume, 0);
    }
}

/// Sections come in order: where the limits admit the volume and the file
/// holds all its sections, the step "decode the next section" gives, after
/// `steps` such steps, the section `steps`, read from its place in the
/// file, and gives the end of the volume once there have been as many steps
/// as the volume has sections.
pub proof fn lemma_sections_in_order(volume: Volume, limits: Limits, steps: nat)
    requires
        volume.admitted(limits),
        volume.section_offset(volume.nz) <= volume.source.len(),
    ensures
        steps < volume.nz ==> volume.next(
            limits,
            volume.after(limits, SectionStateView::NotStarted, steps),
        ).1 == (Outcome::Section {
            index: steps,
            bytes: volume.bytes_at(volume.section_offset(steps)),
        }),
        steps >= volume.nz ==> volume.next(
            limits,
            volume.after(limits, SectionStateView::NotStarted, steps),
        ).1 == Outcome::EndOfVolume,
{
    lemma_state_after(volume, limits, steps);
    lemma_section_offsets(volume, steps);
    lemma_section_offsets(volume, steps + 1);
    lemma_section_offsets(volume, 0);
}

/// The pixel data starts behind the extended header: the first byte of
/// the first section is the one at 224 plus the length of the extended
/// header, and every section starts a whole number of sections behind it.
pub proof fn lemma_data_follows_extended_header(source: Seq<u8>, header: Header, index: nat)
    requires
        header.valid(),
    ensures
        Volume::of(source, header).section_offset(0) == 224 + header.nsymbt,
        Volume::of(source, header).section_offset(index) == 224 + header.nsymbt + index
            * Volume::of(source, header).section_bytes(),
        Volume::of(source, header).bytes_at(Volume::of(source, header).section_offset(0))
            == source.subrange(
            224 + header.nsymbt,
            224 + header.nsymbt + Volume::of(source, header).section_bytes(),
        ),
{
    let volume = Volume::of(source, header);
    assert(0 * volume.section_bytes() == 0) by (nonlinear_arith);
}

/// A volume of no columns, no rows and no sections decodes to nothing, and
/// without a failure, whatever the limits are: each of its sections is
/// empty, and in sequence it is at its end at once.
pub proof fn lemma_empty_volume(
    source: Seq<u8>,
    header: Header,
    limits: Limits,
    state: SectionStateView,
    index: nat,
)
    requires
        header.valid(),
        header.describes(source),
        header.nx == 0,
        header.ny == 0,
        header.nz == 0,
        !(state is Failed),
    ensures
        Volume::of(source, header).at(limits, state, index) == (
            state,
            Outcome::Section { index, bytes: Seq::<u8>::empty() },
        ),
        Volume::of(source, header).next(limits, SectionStateView::NotStarted) == (
            SectionStateView::Done,
            Outcome::EndOfVolume,
        ),
{
    let volume = Volume::of(source, header);
    let multiplicity = volume.format.multiplicity as nat;
    let width = volume.format.width as nat;
    assert(0 * 0 * 0 * multiplicity * width == 0) by (nonlinear_arith);
    assert(0 * 0 * 1 * multiplicity * width == 0) by (nonlinear_arith);
    assert(index * 0 == 0) by (nonlinear_arith);
    assert(volume.bytes_at(volume.section_offset(index)) =~= Seq::<u8>::empty());
}

/// Limits that do not admit a volume refuse every section of it: a step of
/// either kind gives the failure that the limits are exceeded and leaves
/// the decoder where it stands, unless the decoder has failed before, or,
/// in sequence, is done.
pub proof fn lemma_limits_refuse(
    volume: Volume,
    limits: Limits,
    state: SectionStateView,
    index: nat,
)
    requires
        !volume.admitted(limits),
        !(state is Failed),
    ensures
        volume.at(limits, state, index) == (
            state,
            Outcome::Failure { error: MrcErrorView::LimitsExceeded },
        ),
        !(volume.entered(state) is Done) ==> volume.next(limits, state) == (
            volume.entered(state),
            Outcome::Failure { error: MrcErrorView::LimitsExceeded },
        ),
{
}

/// Pixel data that takes more bytes than a decoded buffer may is not
/// admitted.
pub proof fn lemma_large_volume_is_not_admitted(volume: Volume, limits: Limits)
    requires
        volume.total_bytes() > limits.decoding_buffer_size,
    ensures
        !volume.admitted(limits),
{
}

} // verus!
