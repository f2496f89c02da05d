//! The header of an MRC file.

use crate::decoder::ifd::{Value, ValueView};
use crate::decoder::limits::Limits;
use crate::decoder::stream::{ByteOrder, EndianReader};
use crate::error::{
    MrcError, MrcErrorView, MrcFormatError, MrcFormatErrorView, MrcIoError, MrcResult,
};
use vstd::prelude::*;
use vstd::slice::{slice_subrange, slice_to_vec};
use vstd::string::StringExecFns;

verus! {

/// The number of bytes of the fixed header.
pub const HEADER_LEN: usize = 224;

/// The number of bytes of a label.
pub const LABEL_LEN: usize = 80;

/// The largest number of labels that a header declares.
pub const MAX_LABELS: i32 = 10;

/// The position of the magic in the fixed header.
pub const MAGIC_AT: usize = 208;

/// The position of the machine stamp in the fixed header.
pub const STAMP_AT: usize = 212;

/// The kinds of metadata that an extended header is known to hold.
#[derive(Clone, Copy, Debug, PartialEq, Eq, Structural, Hash)]
pub enum ExtType {
    /// Format from the CCP4 suite
    Ccp4,
    /// MRC format
    Mrco,
    /// SerialEM
    Seri,
    /// Agard
    Agar,
    /// FEI software
    Fei1,
    /// Metadata in HDF5 format
    Hdf5,
}

impl ExtType {
    /// The four characters that stand for this kind in a header.
    pub open spec fn spec_tag(self) -> Seq<u8> {
        match self {
            ExtType::Ccp4 => seq![0x43u8, 0x43u8, 0x50u8, 0x34u8],
            ExtType::Mrco => seq![0x4Du8, 0x52u8, 0x43u8, 0x4Fu8],
            ExtType::Seri => seq![0x53u8, 0x45u8, 0x52u8, 0x49u8],
            ExtType::Agar => seq![0x41u8, 0x47u8, 0x41u8, 0x52u8],
            ExtType::Fei1 => seq![0x46u8, 0x45u8, 0x49u8, 0x31u8],
            ExtType::Hdf5 => seq![0x48u8, 0x44u8, 0x46u8, 0x35u8],
        }
    }

    /// The kind that four characters of a header stand for, if any.
    pub open spec fn spec_from_tag(tag: Seq<u8>) -> Option<ExtType> {
        if tag =~= ExtType::Ccp4.spec_tag() {
            Some(ExtType::Ccp4)
        } else if tag =~= ExtType::Mrco.spec_tag() {
            Some(ExtType::Mrco)
        } else if tag =~= ExtType::Seri.spec_tag() {
            Some(ExtType::Seri)
        } else if tag =~= ExtType::Agar.spec_tag() {
            Some(ExtType::Agar)
        } else if tag =~= ExtType::Fei1.spec_tag() {
            Some(ExtType::Fei1)
        } else if tag =~= ExtType::Hdf5.spec_tag() {
            Some(ExtType::Hdf5)
        } else {
            None
        }
    }

    /// The kind that the four bytes at `at` stand for, if any.
    pub fn from_tag(bytes: &[u8], at: usize) -> (kind: Option<ExtType>)
        requires
            at + 4 <= bytes@.len(),
        ensures
            kind == Self::spec_from_tag(bytes@.subrange(at as int, at + 4)),
    {
        let ghost tag = bytes@.subrange(at as int, at + 4);
        let a: u8 = bytes[at];
        let b: u8 = bytes[at + 1];
        let c: u8 = bytes[at + 2];
        let d: u8 = bytes[at + 3];
        assert(tag[0] == a && tag[1] == b && tag[2] == c && tag[3] == d);
        assert(tag.len() == 4);
        if a == 0x43 && b == 0x43 && c == 0x50 && d == 0x34 {
            Some(ExtType::Ccp4)
        } else if a == 0x4D && b == 0x52 && c == 0x43 && d == 0x4F {
            Some(ExtType::Mrco)
        } else if a == 0x53 && b == 0x45 && c == 0x52 && d == 0x49 {
            Some(ExtType::Seri)
        } else if a == 0x41 && b == 0x47 && c == 0x41 && d == 0x52 {
            Some(ExtType::Agar)
        } else if a == 0x46 && b == 0x45 && c == 0x49 && d == 0x31 {
            Some(ExtType::Fei1)
        } else if a == 0x48 && b == 0x44 && c == 0x46 && d == 0x35 {
            Some(ExtType::Hdf5)
        } else {
            None
        }
    }
}

/// The size in bytes of the records of an extended header: 80 for the
/// symmetry records of the CCP4 and MRC kinds, 1 for metadata that is not
/// read.
pub open spec fn spec_record_size(kind: Option<ExtType>) -> int {
    match kind {
        Some(ExtType::Ccp4) | Some(ExtType::Mrco) => 80,
        _ => 1,
    }
}

/// The size in bytes of the records of an extended header.
pub fn record_size(kind: Option<ExtType>) -> (size: i32)
    ensures
        size == spec_record_size(kind),
{
    match kind {
        Some(ExtType::Ccp4) | Some(ExtType::Mrco) => 80,
        _ => 1,
    }
}

/// What identifies the metadata of the extended header.
#[derive(Clone, Copy, Debug, PartialEq, Eq, Structural, Hash)]
pub struct Extra {
    /// Code for the type of extended header
    pub ext_type: ExtType,
    /// Version of the MRC format: the year times 10, plus the version
    /// within the year, counted from 0.
    pub nversion: i32,
}

/// The origin used for transforms, each coordinate as the bits of a 32-bit
/// real.
#[derive(Clone, Copy, Debug, PartialEq, Eq, Structural, Hash)]
pub struct Origin {
    pub xorg: u32,
    pub yorg: u32,
    pub zorg: u32,
}

/// Whether the four bytes at the place of the magic are `MAP `.
pub open spec fn spec_magic_ok(fixed: Seq<u8>) -> bool {
    fixed.subrange(MAGIC_AT as int, MAGIC_AT + 4) =~= seq![0x4Du8, 0x41u8, 0x50u8, 0x20u8]
}

/// Whether a byte pads a label: a space or a null.
pub open spec fn is_padding(byte: u8) -> bool {
    byte == 0x20 || byte == 0
}

/// How many bytes of a label are left when the padding at its end is taken
/// off.
pub open spec fn spec_trimmed_len(record: Seq<u8>) -> nat
    decreases record.len(),
{
    if record.len() == 0 {
        0
    } else if is_padding(record.last()) {
        spec_trimmed_len(record.drop_last())
    } else {
        record.len()
    }
}

/// A label without the padding at its end.
pub open spec fn spec_trimmed(record: Seq<u8>) -> Seq<u8> {
    record.take(spec_trimmed_len(record) as int)
}

/// Whether every byte is an ASCII character.
pub open spec fn all_ascii(bytes: Seq<u8>) -> bool {
    forall|i: int| 0 <= i < bytes.len() ==> bytes[i] < 0x80
}

/// The text that ASCII bytes spell.
pub open spec fn spec_text(bytes: Seq<u8>) -> Seq<char> {
    Seq::new(bytes.len(), |i: int| bytes[i] as char)
}

/// A length is the trimmed length where all behind it is padding and the
/// byte before it is not.
pub proof fn lemma_trimmed_len_unique(record: Seq<u8>, len: nat)
    requires
        len <= record.len(),
        forall|i: int| len <= i < record.len() ==> is_padding(record[i]),
        len > 0 ==> !is_padding(record[len - 1]),
    ensures
        spec_trimmed_len(record) == len,
    decreases record.len(),
{
    if record.len() > 0 && is_padding(record.last()) {
        lemma_trimmed_len_unique(record.drop_last(), len);
    }
}

/// How many bytes of the `len` bytes at `at` are left when the padding at
/// their end is taken off.
pub fn trimmed_len(bytes: &[u8], at: usize, len: usize) -> (kept: usize)
    requires
        at + len <= bytes@.len(),
    ensures
        kept == spec_trimmed_len(bytes@.subrange(at as int, at + len)),
        kept <= len,
{
    let ghost record = bytes@.subrange(at as int, at + len);
    assert(bytes@.len() == bytes.len());
    let mut kept: usize = len;
    while kept > 0 && (bytes[at + kept - 1] == 0x20 || bytes[at + kept - 1] == 0)
        invariant
            kept <= len,
            at + len <= bytes@.len() <= usize::MAX,
            record == bytes@.subrange(at as int, at + len),
            forall|i: int| kept <= i < len ==> is_padding(record[i]),
        decreases kept,
    {
        kept -= 1;
    }
    proof {
        lemma_trimmed_len_unique(record, kept as nat);
    }
    kept
}

/// The signed number that the four bytes at `at` stand for.
pub open spec fn spec_i32_at(fixed: Seq<u8>, order: ByteOrder, at: int) -> int {
    order.spec_i32(fixed.subrange(at, at + 4))
}

/// The unsigned number that the four bytes at `at` stand for.
pub open spec fn spec_u32_at(fixed: Seq<u8>, order: ByteOrder, at: int) -> int {
    order.spec_u32(fixed.subrange(at, at + 4))
}

/// The number of intervals of the unit cell along an axis: the one that
/// the file gives, or the size of the data along that axis where the file
/// leaves it at 0.
pub open spec fn spec_intervals(given: int, size: int) -> int {
    if given == 0 {
        size
    } else {
        given
    }
}

/// What identifies the metadata of the extended header, where the header
/// names a kind that is known.
pub open spec fn spec_extra(fixed: Seq<u8>, order: ByteOrder) -> Option<Extra> {
    match ExtType::spec_from_tag(fixed.subrange(104, 108)) {
        Some(ext_type) => Some(
            (Extra { ext_type, nversion: spec_i32_at(fixed, order, 108) as i32 }),
        ),
        None => None,
    }
}

/// The `index`-th label of a file whose extended header has `nsymbt` bytes,
/// with its padding.
pub open spec fn spec_label_record(input: Seq<u8>, nsymbt: int, index: int) -> Seq<u8> {
    input.subrange(
        HEADER_LEN + nsymbt + LABEL_LEN * index,
        HEADER_LEN + nsymbt + LABEL_LEN * index + LABEL_LEN,
    )
}

/// The header of an MRC file.
#[derive(Debug, PartialEq)]
pub struct Header {
    /// Number of columns in 3D data array: the fast axis
    pub nx: i32,
    /// Number of rows in 3D data array: the medium axis
    pub ny: i32,
    /// Number of sections in 3D data array: the slow axis
    pub nz: i32,
    /// Data type, as the mode code of the file
    pub mode: i32,
    /// Number of first column in map
    pub nxstart: i32,
    /// Number of first row in map
    pub nystart: i32,
    /// Number of first section in map
    pub nzstart: i32,
    /// Number of intervals along X of the unit cell
    pub mx: i32,
    /// Number of intervals along Y of the unit cell
    pub my: i32,
    /// Number of intervals along Z of the unit cell
    pub mz: i32,
    /// Cell X length in angstroms, as the bits of a 32-bit real
    pub xlen: u32,
    /// Cell Y length in angstroms, as the bits of a 32-bit real
    pub ylen: u32,
    /// Cell Z length in angstroms, as the bits of a 32-bit real
    pub zlen: u32,
    /// Cell angle alpha in degrees, as the bits of a 32-bit real
    pub alpha: u32,
    /// Cell angle beta in degrees, as the bits of a 32-bit real
    pub beta: u32,
    /// Cell angle gamma in degrees, as the bits of a 32-bit real
    pub gamma: u32,
    /// Axis corresponding to columns (1=X, 2=Y, 3=Z)
    pub mapc: i32,
    /// Axis corresponding to rows (1=X, 2=Y, 3=Z)
    pub mapr: i32,
    /// Axis corresponding to sections (1=X, 2=Y, 3=Z)
    pub maps: i32,
    /// Minimum density value, as the bits of a 32-bit real
    pub amin: u32,
    /// Maximum density value, as the bits of a 32-bit real
    pub amax: u32,
    /// Mean density value, as the bits of a 32-bit real
    pub amean: u32,
    /// Space group number
    pub ispg: i32,
    /// Number of bytes of the extended header
    pub nsymbt: i32,
    /// What identifies the metadata of the extended header, where the
    /// header names a kind that is known
    pub extra: Option<Extra>,
    /// The 100 bytes of the header that are left to extensions, as they are
    pub extra_bytes: Vec<u8>,
    /// Origin in X, Y, Z used for transforms
    pub origin: Origin,
    /// Character string 'MAP ' to identify file type
    pub map: String,
    /// Machine stamp
    pub mach_st: String,
    /// The byte order that the machine stamp declares
    pub byte_order: ByteOrder,
    /// Rms deviation of map from mean density, as the bits of a 32-bit real
    pub rms: u32,
    /// Number of labels being used
    pub nlabl: i32,
    /// The labels, without the padding at their ends
    pub label: Vec<String>,
    /// The bytes of the extended header, as they are
    pub extended: Vec<u8>,
}

impl Header {
    /// Whether the header is one that a file can have: its sizes are not
    /// negative, the extended header is made of whole records, there are
    /// at most ten labels, and what it holds of the extended header and of
    /// the labels has the lengths that it declares.
    pub open spec fn valid(&self) -> bool {
        &&& 0 <= self.nx
        &&& 0 <= self.ny
        &&& 0 <= self.nz
        &&& 0 <= self.nsymbt
        &&& self.nsymbt as int % spec_record_size(
            match self.extra {
                Some(extra) => Some(extra.ext_type),
                None => None,
            },
        ) == 0
        &&& 0 <= self.nlabl <= MAX_LABELS
        &&& self.label@.len() == self.nlabl
        &&& self.extended@.len() == self.nsymbt
        &&& self.extra_bytes@.len() == 100
        &&& self.map@ == "MAP "@
    }

    /// Whether the fields of the header are those that the fixed header
    /// `fixed` holds.
    pub open spec fn decodes(&self, fixed: Seq<u8>) -> bool {
        let order = self.byte_order;
        &&& ByteOrder::spec_from_stamp(fixed.subrange(STAMP_AT as int, STAMP_AT + 4)) == Some(
            order,
        )
        &&& self.nx == spec_i32_at(fixed, order, 0)
        &&& self.ny == spec_i32_at(fixed, order, 4)
        &&& self.nz == spec_i32_at(fixed, order, 8)
        &&& self.mode == spec_i32_at(fixed, order, 12)
        &&& self.nxstart == spec_i32_at(fixed, order, 16)
        &&& self.nystart == spec_i32_at(fixed, order, 20)
        &&& self.nzstart == spec_i32_at(fixed, order, 24)
        &&& self.mx == spec_intervals(spec_i32_at(fixed, order, 28), self.nx as int)
        &&& self.my == spec_intervals(spec_i32_at(fixed, order, 32), self.ny as int)
        &&& self.mz == spec_intervals(spec_i32_at(fixed, order, 36), self.nz as int)
        &&& self.xlen == spec_u32_at(fixed, order, 40)
        &&& self.ylen == spec_u32_at(fixed, order, 44)
        &&& self.zlen == spec_u32_at(fixed, order, 48)
        &&& self.alpha == spec_u32_at(fixed, order, 52)
        &&& self.beta == spec_u32_at(fixed, order, 56)
        &&& self.gamma == spec_u32_at(fixed, order, 60)
        &&& self.mapc == spec_i32_at(fixed, order, 64)
        &&& self.mapr == spec_i32_at(fixed, order, 68)
        &&& self.maps == spec_i32_at(fixed, order, 72)
        &&& self.amin == spec_u32_at(fixed, order, 76)
        &&& self.amax == spec_u32_at(fixed, order, 80)
        &&& self.amean == spec_u32_at(fixed, order, 84)
        &&& self.ispg == spec_i32_at(fixed, order, 88)
        &&& self.nsymbt == spec_i32_at(fixed, order, 92)
        &&& self.extra == spec_extra(fixed, order)
        &&& self.extra_bytes@ == fixed.subrange(96, 196)
        &&& self.origin.xorg == spec_u32_at(fixed, order, 196)
        &&& self.origin.yorg == spec_u32_at(fixed, order, 200)
        &&& self.origin.zorg == spec_u32_at(fixed, order, 204)
        &&& self.map@ == spec_text(fixed.subrange(MAGIC_AT as int, MAGIC_AT + 4))
        &&& self.mach_st@ == spec_text(fixed.subrange(STAMP_AT as int, STAMP_AT + 4))
        &&& self.rms == spec_u32_at(fixed, order, 216)
        &&& self.nlabl == spec_i32_at(fixed, order, 220)
    }

    /// Whether the header is the one that stands at the start of `input`:
    /// its fields are those of the fixed header, its extended header is
    /// what follows the fixed header, and its labels are those that follow
    /// the extended header, without the padding at their ends.
    pub open spec fn describes(&self, input: Seq<u8>) -> bool {
        &&& HEADER_LEN + self.nsymbt + LABEL_LEN * self.nlabl <= input.len()
        &&& self.decodes(input.take(HEADER_LEN as int))
        &&& self.extended@ == input.subrange(HEADER_LEN as int, HEADER_LEN + self.nsymbt)
        &&& self.label@.len() == self.nlabl
        &&& forall|k: int|
            0 <= k < self.nlabl ==> (#[trigger] self.label@[k])@ == spec_text(
                spec_trimmed(spec_label_record(input, self.nsymbt as int, k)),
            )
    }

    /// Where the pixel data starts in a file: behind the fixed header and
    /// the extended header.
    pub open spec fn spec_data_offset(&self) -> nat {
        (HEADER_LEN + self.nsymbt) as nat
    }

    /// Where the pixel data starts in a file: behind the fixed header and
    /// the extended header.
    pub fn data_offset(&self) -> (offset: u64)
        requires
            self.valid(),
        ensures
            offset == self.spec_data_offset(),
            offset == 224 + self.nsymbt,
    {
        HEADER_LEN as u64 + self.nsymbt as u64
    }
}

/// `String::push` appends the character to the end of the string.
pub assume_specification[ String::push ](text: &mut String, c: char)
    ensures
        final(text)@ == old(text)@.push(c),
;

/// The text that the `len` bytes at `at` spell.
pub fn text_of(bytes: &[u8], at: usize, len: usize) -> (text: String)
    requires
        at + len <= bytes@.len(),
    ensures
        text@ == spec_text(bytes@.subrange(at as int, at + len)),
{
    assert(bytes@.len() == bytes.len());
    let mut text = String::new();
    let mut i: usize = 0;
    while i < len
        invariant
            i <= len,
            at + len <= bytes@.len() <= usize::MAX,
            text@ == spec_text(bytes@.subrange(at as int, at + i)),
        decreases len - i,
    {
        text.push(bytes[at + i] as char);
        i += 1;
        assert(text@ =~= spec_text(bytes@.subrange(at as int, at + i)));
    }
    text
}

/// The failure that a header gives which breaks a rule of the format.
pub open spec fn format_fault(message: Seq<char>) -> MrcErrorView {
    MrcErrorView::FormatError(MrcFormatErrorView::Format(message))
}

/// The failure that a size gives which is negative.
pub open spec fn negative_fault(size: int) -> MrcErrorView {
    MrcErrorView::FormatError(
        MrcFormatErrorView::UnsignedIntegerExpected(ValueView::Signed(size as i32)),
    )
}

/// What is said of a header without the magic.
pub open spec fn bad_magic() -> Seq<char> {
    "the characters 'MAP ' that identify the format are missing"@
}

/// What is said of a header whose machine stamp names no byte order.
pub open spec fn bad_stamp() -> Seq<char> {
    "the machine stamp names no byte order"@
}

/// What is said of an extended header that is not made of whole records.
pub open spec fn bad_nsymbt() -> Seq<char> {
    "the extended header is not made of whole records"@
}

/// What is said of a header that declares more labels than there can be.
pub open spec fn bad_nlabl() -> Seq<char> {
    "more than ten labels are declared"@
}

/// What is said of a label that holds a byte which is no ASCII character.
pub open spec fn bad_label() -> Seq<char> {
    "a label holds a byte that is not ASCII"@
}

/// The first rule of the format that the fixed header breaks, if it breaks
/// any: the magic is there, the machine stamp names a byte order, no size is
/// negative, the extended header is made of whole records, and there are at
/// most ten labels.
pub open spec fn spec_fixed_fault(fixed: Seq<u8>) -> Option<MrcErrorView> {
    if !spec_magic_ok(fixed) {
        Some(format_fault(bad_magic()))
    } else {
        match ByteOrder::spec_from_stamp(fixed.subrange(STAMP_AT as int, STAMP_AT + 4)) {
            None => Some(format_fault(bad_stamp())),
            Some(order) => {
                let nx = spec_i32_at(fixed, order, 0);
                let ny = spec_i32_at(fixed, order, 4);
                let nz = spec_i32_at(fixed, order, 8);
                let nsymbt = spec_i32_at(fixed, order, 92);
                let nlabl = spec_i32_at(fixed, order, 220);
                let kind = ExtType::spec_from_tag(fixed.subrange(104, 108));
                if nx < 0 {
                    Some(negative_fault(nx))
                } else if ny < 0 {
                    Some(negative_fault(ny))
                } else if nz < 0 {
                    Some(negative_fault(nz))
                } else if nsymbt < 0 {
                    Some(negative_fault(nsymbt))
                } else if nsymbt % spec_record_size(kind) != 0 {
                    Some(format_fault(bad_nsymbt()))
                } else if nlabl < 0 {
                    Some(negative_fault(nlabl))
                } else if nlabl > MAX_LABELS {
                    Some(format_fault(bad_nlabl()))
                } else {
                    None
                }
            },
        }
    }
}

/// Why no header can be read from `input` under `limits`, if none can: the
/// first of these that holds. The input is shorter than the fixed header;
/// the fixed header breaks a rule of the format; the extended header is
/// larger than a metadata value may be; the input ends before the end of
/// the extended header, or before the end of the labels; a label holds a
/// byte that is not ASCII.
pub open spec fn spec_fault(input: Seq<u8>, limits: Limits) -> Option<MrcErrorView> {
    if input.len() < HEADER_LEN {
        Some(MrcErrorView::IoError(MrcIoError::ShortRead))
    } else {
        let fixed = input.take(HEADER_LEN as int);
        match spec_fixed_fault(fixed) {
            Some(fault) => Some(fault),
            None => {
                let order = ByteOrder::spec_from_stamp(
                    fixed.subrange(STAMP_AT as int, STAMP_AT + 4),
                )->Some_0;
                let nsymbt = spec_i32_at(fixed, order, 92);
                let nlabl = spec_i32_at(fixed, order, 220);
                if !limits.admits_value(nsymbt as nat) {
                    Some(MrcErrorView::LimitsExceeded)
                } else if input.len() < HEADER_LEN + nsymbt + LABEL_LEN * nlabl {
                    Some(MrcErrorView::IoError(MrcIoError::ShortRead))
                } else if exists|k: int|
                    0 <= k < nlabl && !all_ascii(
                        spec_trimmed(#[trigger] spec_label_record(input, nsymbt, k)),
                    ) {
                    Some(format_fault(bad_label()))
                } else {
                    None
                }
            },
        }
    }
}

/// The failure of a header that breaks a rule of the format.
fn format_error(message: &str) -> (error: MrcError)
    ensures
        error@ == format_fault(message@),
{
    MrcError::FormatError(MrcFormatError::Format(String::from_str(message)))
}

/// The failure of a size that is negative.
fn negative_error(size: i32) -> (error: MrcError)
    ensures
        error@ == negative_fault(size as int),
{
    MrcError::FormatError(MrcFormatError::UnsignedIntegerExpected(Value::Signed(size)))
}

/// Holds the fixed header to the rules of the format, and gives the byte
/// order that its machine stamp declares.
pub fn check_fixed(fixed: &[u8]) -> (result: MrcResult<ByteOrder>)
    requires
        fixed@.len() == HEADER_LEN,
    ensures
        match result {
            Ok(order) => spec_fixed_fault(fixed@).is_none() && ByteOrder::spec_from_stamp(
                fixed@.subrange(STAMP_AT as int, STAMP_AT + 4),
            ) == Some(order),
            Err(e) => spec_fixed_fault(fixed@) == Some(e@),
        },
{
    let ghost magic = fixed@.subrange(MAGIC_AT as int, MAGIC_AT + 4);
    assert(magic.len() == 4 && magic[0] == fixed@[208] && magic[1] == fixed@[209] && magic[2]
        == fixed@[210] && magic[3] == fixed@[211]);
    if !(fixed[208] == 0x4D && fixed[209] == 0x41 && fixed[210] == 0x50 && fixed[211] == 0x20) {
        return Err(format_error("the characters 'MAP ' that identify the format are missing"));
    }
    let order = match ByteOrder::from_stamp(slice_subrange(fixed, STAMP_AT, STAMP_AT + 4)) {
        Some(order) => order,
        None => {
            return Err(format_error("the machine stamp names no byte order"));
        },
    };
    let nx: i32 = order.i32_at(fixed, 0);
    let ny: i32 = order.i32_at(fixed, 4);
    let nz: i32 = order.i32_at(fixed, 8);
    let nsymbt: i32 = order.i32_at(fixed, 92);
    let nlabl: i32 = order.i32_at(fixed, 220);
    let kind = ExtType::from_tag(fixed, 104);
    if nx < 0 {
        Err(negative_error(nx))
    } else if ny < 0 {
        Err(negative_error(ny))
    } else if nz < 0 {
        Err(negative_error(nz))
    } else if nsymbt < 0 {
        Err(negative_error(nsymbt))
    } else if nsymbt % record_size(kind) != 0 {
        Err(format_error("the extended header is not made of whole records"))
    } else if nlabl < 0 {
        Err(negative_error(nlabl))
    } else if nlabl > MAX_LABELS {
        Err(format_error("more than ten labels are declared"))
    } else {
        Ok(order)
    }
}

/// Whether the `len` bytes at `at` are all ASCII characters.
pub fn is_ascii_range(bytes: &[u8], at: usize, len: usize) -> (ascii: bool)
    requires
        at + len <= bytes@.len(),
    ensures
        ascii == all_ascii(bytes@.subrange(at as int, at + len)),
{
    assert(bytes@.len() == bytes.len());
    let ghost range = bytes@.subrange(at as int, at + len);
    let mut i: usize = 0;
    while i < len
        invariant
            i <= len,
            at + len <= bytes@.len() <= usize::MAX,
            range == bytes@.subrange(at as int, at + len),
            forall|k: int| 0 <= k < i ==> range[k] < 0x80,
        decreases len - i,
    {
        if bytes[at + i] >= 0x80 {
            assert(range[i as int] >= 0x80);
            return false;
        }
        i += 1;
    }
    true
}

/// The `index`-th of the labels that stand one after the other in `block`,
/// with its padding.
pub open spec fn spec_record(block: Seq<u8>, index: int) -> Seq<u8> {
    block.subrange(LABEL_LEN * index, LABEL_LEN * index + LABEL_LEN)
}

/// Reads the `count` labels that stand one after the other in `block`, and
/// takes the padding off their ends.
pub fn read_labels(block: &[u8], count: usize) -> (result: MrcResult<Vec<String>>)
    requires
        block@.len() == LABEL_LEN * count,
    ensures
        match result {
            Ok(labels) => {
                &&& labels@.len() == count
                &&& forall|k: int|
                    0 <= k < count ==> all_ascii(spec_trimmed(#[trigger] spec_record(block@, k)))
                &&& forall|k: int|
                    0 <= k < count ==> (#[trigger] labels@[k])@ == spec_text(
                        spec_trimmed(spec_record(block@, k)),
                    )
            },
            Err(e) => {
                &&& e@ == format_fault(bad_label())
                &&& exists|k: int|
                    0 <= k < count && !all_ascii(spec_trimmed(#[trigger] spec_record(block@, k)))
            },
        },
{
    assert(block@.len() == block.len());
    let mut labels: Vec<String> = Vec::new();
    let mut i: usize = 0;
    while i < count
        invariant
            i <= count,
            block@.len() == LABEL_LEN * count <= usize::MAX,
            labels@.len() == i,
            forall|k: int|
                0 <= k < i ==> all_ascii(spec_trimmed(#[trigger] spec_record(block@, k))),
            forall|k: int|
                0 <= k < i ==> (#[trigger] labels@[k])@ == spec_text(
                    spec_trimmed(spec_record(block@, k)),
                ),
        decreases count - i,
    {
        let at: usize = LABEL_LEN * i;
        let ghost record = spec_record(block@, i as int);
        let kept: usize = trimmed_len(block, at, LABEL_LEN);
        assert(block@.subrange(at as int, at + kept) =~= spec_trimmed(record));
        if !is_ascii_range(block, at, kept) {
            return Err(format_error("a label holds a byte that is not ASCII"));
        }
        labels.push(text_of(block, at, kept));
        i += 1;
    }
    Ok(labels)
}

/// The bytes of a source from a position on.
pub open spec fn spec_rest(source: Seq<u8>, position: nat) -> Seq<u8> {
    if position <= source.len() {
        source.skip(position as int)
    } else {
        Seq::empty()
    }
}

impl Header {
    /// Makes the header whose fields are those that the fixed header
    /// `fixed` holds in the byte order `order`, with the extended header
    /// and the labels that are given.
    fn build(fixed: &[u8], order: ByteOrder, extended: Vec<u8>, label: Vec<String>) -> (header:
        Header)
        requires
            fixed@.len() == HEADER_LEN,
            ByteOrder::spec_from_stamp(fixed@.subrange(STAMP_AT as int, STAMP_AT + 4)) == Some(
                order,
            ),
        ensures
            header.decodes(fixed@),
            header.byte_order == order,
            header.extended == extended,
            header.label == label,
    {
        let nx: i32 = order.i32_at(fixed, 0);
        let ny: i32 = order.i32_at(fixed, 4);
        let nz: i32 = order.i32_at(fixed, 8);
        let nsymbt: i32 = order.i32_at(fixed, 92);
        let nlabl: i32 = order.i32_at(fixed, 220);
        let given_mx: i32 = order.i32_at(fixed, 28);
        let given_my: i32 = order.i32_at(fixed, 32);
        let given_mz: i32 = order.i32_at(fixed, 36);
        let extra = match ExtType::from_tag(fixed, 104) {
            Some(ext_type) => Some(Extra { ext_type, nversion: order.i32_at(fixed, 108) }),
            None => None,
        };
        let header = Header {
            nx,
            ny,
            nz,
            mode: order.i32_at(fixed, 12),
            nxstart: order.i32_at(fixed, 16),
            nystart: order.i32_at(fixed, 20),
            nzstart: order.i32_at(fixed, 24),
            mx: if given_mx == 0 {
                nx
            } else {
                given_mx
            },
            my: if given_my == 0 {
                ny
            } else {
                given_my
            },
            mz: if given_mz == 0 {
                nz
            } else {
                given_mz
            },
            xlen: order.u32_at(fixed, 40),
            ylen: order.u32_at(fixed, 44),
            zlen: order.u32_at(fixed, 48),
            alpha: order.u32_at(fixed, 52),
            beta: order.u32_at(fixed, 56),
            gamma: order.u32_at(fixed, 60),
            mapc: order.i32_at(fixed, 64),
            mapr: order.i32_at(fixed, 68),
            maps: order.i32_at(fixed, 72),
            amin: order.u32_at(fixed, 76),
            amax: order.u32_at(fixed, 80),
            amean: order.u32_at(fixed, 84),
            ispg: order.i32_at(fixed, 88),
            nsymbt,
            extra,
            extra_bytes: slice_to_vec(slice_subrange(fixed, 96, 196)),
            origin: Origin {
                xorg: order.u32_at(fixed, 196),
                yorg: order.u32_at(fixed, 200),
                zorg: order.u32_at(fixed, 204),
            },
            map: text_of(fixed, MAGIC_AT, 4),
            mach_st: text_of(fixed, STAMP_AT, 4),
            byte_order: order,
            rms: order.u32_at(fixed, 216),
            nlabl,
            label,
            extended,
        };
        header
    }

    /// Reads the header that starts at the position of `reader`, and leaves
    /// the reader behind the labels. Where no header can be read, the
    /// failure says why.
    pub fn parse<R: EndianReader>(reader: &mut R, limits: &Limits) -> (result: MrcResult<Header>)
        ensures
            final(reader).stream().source == old(reader).stream().source,
            final(reader).stream().order == old(reader).stream().order,
            match result {
                Ok(header) => {
                    &&& spec_fault(
                        spec_rest(old(reader).stream().source, old(reader).stream().position),
                        *limits,
                    ).is_none()
                    &&& header.valid()
                    &&& header.describes(
                        spec_rest(old(reader).stream().source, old(reader).stream().position),
                    )
                    &&& final(reader).stream() == old(reader).stream().skip(
                        (HEADER_LEN + header.nsymbt + LABEL_LEN * header.nlabl) as nat,
                    )
                },
                Err(e) => spec_fault(
                    spec_rest(old(reader).stream().source, old(reader).stream().position),
                    *limits,
                ) == Some(e@),
            },
    {
        let ghost start = old(reader).stream();
        let ghost input = spec_rest(start.source, start.position);
        let block = match reader.read_exact(HEADER_LEN) {
            Ok(block) => block,
            Err(e) => {
                return Err(MrcError::IoError(e));
            },
        };
        let fixed = block.as_slice();
        assert(fixed@ =~= input.take(HEADER_LEN as int));
        let order = check_fixed(fixed)?;
        let nsymbt: i32 = order.i32_at(fixed, 92);
        let nlabl: i32 = order.i32_at(fixed, 220);
        limits.check_value(nsymbt as usize)?;
        let extended = match reader.read_exact(nsymbt as usize) {
            Ok(extended) => extended,
            Err(e) => {
                return Err(MrcError::IoError(e));
            },
        };
        assert(extended@ =~= input.subrange(HEADER_LEN as int, HEADER_LEN + nsymbt));
        let label_block = match reader.read_exact(LABEL_LEN * (nlabl as usize)) {
            Ok(label_block) => label_block,
            Err(e) => {
                return Err(MrcError::IoError(e));
            },
        };
        assert forall|k: int| 0 <= k < nlabl implies #[trigger] spec_record(label_block@, k)
            == spec_label_record(input, nsymbt as int, k) by {
            assert(spec_record(label_block@, k) =~= spec_label_record(input, nsymbt as int, k));
        }
        let label = read_labels(label_block.as_slice(), nlabl as usize)?;
        let header = Header::build(fixed, order, extended, label);
        proof {
            assert forall|k: int| 0 <= k < nlabl implies all_ascii(
                spec_trimmed(#[trigger] spec_label_record(input, nsymbt as int, k)),
            ) by {
                assert(spec_record(label_block@, k) == spec_label_record(input, nsymbt as int, k));
            }
            reveal_strlit("MAP ");
            assert(header.map@ =~= "MAP "@);
        }
        Ok(header)
    }
}

/// The machine stamp decides the byte order: a header that is read from a
/// file whose machine stamp is `44 44 00 00` in hexadecimal is little
/// endian, and one whose machine stamp is `11 11 00 00` is big endian.
pub proof fn lemma_stamp_decides_order(header: Header, input: Seq<u8>)
    requires
        header.valid(),
        header.describes(input),
    ensures
        input.subrange(STAMP_AT as int, STAMP_AT + 4) =~= seq![0x44u8, 0x44u8, 0x00u8, 0x00u8]
            ==> header.byte_order == ByteOrder::LittleEndian,
        input.subrange(STAMP_AT as int, STAMP_AT + 4) =~= seq![0x11u8, 0x11u8, 0x00u8, 0x00u8]
            ==> header.byte_order == ByteOrder::BigEndian,
{
    let fixed = input.take(HEADER_LEN as int);
    assert(fixed.subrange(STAMP_AT as int, STAMP_AT + 4) =~= input.subrange(
        STAMP_AT as int,
        STAMP_AT + 4,
    ));
}

/// A file that is as long as a fixed header and does not hold the magic at
/// its place gives a format error, whatever else it holds.
pub proof fn lemma_magic_is_required(input: Seq<u8>, limits: Limits)
    requires
        input.len() >= HEADER_LEN,
        !(input.subrange(MAGIC_AT as int, MAGIC_AT + 4) =~= seq![0x4Du8, 0x41u8, 0x50u8, 0x20u8]),
    ensures
        spec_fault(input, limits) == Some(format_fault(bad_magic())),
{
    let fixed = input.take(HEADER_LEN as int);
    assert(fixed.subrange(MAGIC_AT as int, MAGIC_AT + 4) =~= input.subrange(
        MAGIC_AT as int,
        MAGIC_AT + 4,
    ));
}

} // verus!
