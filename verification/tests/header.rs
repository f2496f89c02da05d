use mrc::decoder::header::{
    check_fixed, is_ascii_range, read_labels, record_size, text_of, trimmed_len, ExtType, Extra,
    Header, Origin,
};
use mrc::decoder::ifd::Value;
use mrc::decoder::stream::{ByteOrder, SmartReader};
use mrc::decoder::Limits;
use mrc::error::{MrcError, MrcFormatError, MrcIoError};

fn put_i32(bytes: &mut Vec<u8>, at: usize, value: i32, big: bool) {
    let b = if big { value.to_be_bytes() } else { value.to_le_bytes() };
    bytes[at..at + 4].copy_from_slice(&b);
}

fn put_f32(bytes: &mut Vec<u8>, at: usize, value: f32, big: bool) {
    let b = if big { value.to_be_bytes() } else { value.to_le_bytes() };
    bytes[at..at + 4].copy_from_slice(&b);
}

fn fixed(nx: i32, ny: i32, nz: i32, mode: i32, nsymbt: i32, nlabl: i32, big: bool) -> Vec<u8> {
    let mut bytes = vec![0u8; 224];
    put_i32(&mut bytes, 0, nx, big);
    put_i32(&mut bytes, 4, ny, big);
    put_i32(&mut bytes, 8, nz, big);
    put_i32(&mut bytes, 12, mode, big);
    put_i32(&mut bytes, 92, nsymbt, big);
    put_i32(&mut bytes, 220, nlabl, big);
    bytes[208..212].copy_from_slice(b"MAP ");
    if big {
        bytes[212..216].copy_from_slice(&[0x11, 0x11, 0, 0]);
    } else {
        bytes[212..216].copy_from_slice(&[0x44, 0x44, 0, 0]);
    }
    bytes
}

fn parse(bytes: Vec<u8>) -> Result<Header, MrcError> {
    let mut reader = SmartReader::wrap(bytes, ByteOrder::LittleEndian);
    Header::parse(&mut reader, &Limits::default())
}

fn format(message: &str) -> MrcError {
    MrcError::FormatError(MrcFormatError::Format(String::from(message)))
}

fn negative(value: i32) -> MrcError {
    MrcError::FormatError(MrcFormatError::UnsignedIntegerExpected(Value::Signed(value)))
}

#[test]
fn little_endian_stamp_gives_little_endian_header() {
    let header = parse(fixed(1, 2, 3, 0, 0, 0, false)).unwrap();
    assert_eq!(header.byte_order, ByteOrder::LittleEndian);
    assert_eq!((header.nx, header.ny, header.nz), (1, 2, 3));
}

#[test]
fn big_endian_stamp_gives_big_endian_header() {
    let header = parse(fixed(1, 2, 3, 0, 0, 0, true)).unwrap();
    assert_eq!(header.byte_order, ByteOrder::BigEndian);
    assert_eq!((header.nx, header.ny, header.nz), (1, 2, 3));
}

#[test]
fn every_field_is_read_from_its_place() {
    for big in [false, true] {
        let mut bytes = fixed(100, 200, 300, 2, 0, 0, big);
        put_i32(&mut bytes, 16, -4, big);
        put_i32(&mut bytes, 20, 5, big);
        put_i32(&mut bytes, 24, 6, big);
        put_i32(&mut bytes, 28, 7, big);
        put_i32(&mut bytes, 32, 8, big);
        put_i32(&mut bytes, 36, 9, big);
        put_f32(&mut bytes, 40, 10.5, big);
        put_f32(&mut bytes, 44, 11.5, big);
        put_f32(&mut bytes, 48, 12.5, big);
        put_f32(&mut bytes, 52, 90.0, big);
        put_f32(&mut bytes, 56, 91.0, big);
        put_f32(&mut bytes, 60, 92.0, big);
        put_i32(&mut bytes, 64, 1, big);
        put_i32(&mut bytes, 68, 2, big);
        put_i32(&mut bytes, 72, 3, big);
        put_f32(&mut bytes, 76, -1.0, big);
        put_f32(&mut bytes, 80, 1.0, big);
        put_f32(&mut bytes, 84, 0.25, big);
        put_i32(&mut bytes, 88, 401, big);
        bytes[104..108].copy_from_slice(b"FEI1");
        put_i32(&mut bytes, 108, 20140, big);
        put_f32(&mut bytes, 196, 1.0, big);
        put_f32(&mut bytes, 200, 2.0, big);
        put_f32(&mut bytes, 204, 3.0, big);
        put_f32(&mut bytes, 216, 0.125, big);
        let header = parse(bytes.clone()).unwrap();
        let expected = Header {
            nx: 100,
            ny: 200,
            nz: 300,
            mode: 2,
            nxstart: -4,
            nystart: 5,
            nzstart: 6,
            mx: 7,
            my: 8,
            mz: 9,
            xlen: 10.5f32.to_bits(),
            ylen: 11.5f32.to_bits(),
            zlen: 12.5f32.to_bits(),
            alpha: 90.0f32.to_bits(),
            beta: 91.0f32.to_bits(),
            gamma: 92.0f32.to_bits(),
            mapc: 1,
            mapr: 2,
            maps: 3,
            amin: (-1.0f32).to_bits(),
            amax: 1.0f32.to_bits(),
            amean: 0.25f32.to_bits(),
            ispg: 401,
            nsymbt: 0,
            extra: Some(Extra { ext_type: ExtType::Fei1, nversion: 20140 }),
            extra_bytes: bytes[96..196].to_vec(),
            origin: Origin { xorg: 1.0f32.to_bits(), yorg: 2.0f32.to_bits(), zorg: 3.0f32.to_bits() },
            map: String::from("MAP "),
            mach_st: if big { String::from("\u{11}\u{11}\0\0") } else { String::from("DD\0\0") },
            byte_order: if big { ByteOrder::BigEndian } else { ByteOrder::LittleEndian },
            rms: 0.125f32.to_bits(),
            nlabl: 0,
            label: vec![],
            extended: vec![],
        };
        assert_eq!(header, expected);
        assert_eq!(header.data_offset(), 224);
    }
}

#[test]
fn intervals_default_to_the_dimensions() {
    let header = parse(fixed(11, 12, 13, 0, 0, 0, false)).unwrap();
    assert_eq!((header.mx, header.my, header.mz), (11, 12, 13));
    let mut bytes = fixed(11, 12, 13, 0, 0, 0, true);
    put_i32(&mut bytes, 32, 5, true);
    let header = parse(bytes).unwrap();
    assert_eq!((header.mx, header.my, header.mz), (11, 5, 13));
}

#[test]
fn a_short_input_is_an_io_error() {
    assert_eq!(parse(vec![]), Err(MrcError::IoError(MrcIoError::ShortRead)));
    let mut bytes = fixed(1, 1, 1, 0, 0, 0, false);
    bytes.truncate(223);
    assert_eq!(parse(bytes), Err(MrcError::IoError(MrcIoError::ShortRead)));
}

#[test]
fn a_wrong_magic_is_a_format_error() {
    let message = "the characters 'MAP ' that identify the format are missing";
    for magic in [b"MAP\0", b"map ", b"MAQ ", b" MAP", b"\0\0\0\0"] {
        let mut bytes = fixed(1, 1, 1, 0, 0, 0, false);
        bytes[208..212].copy_from_slice(magic);
        assert_eq!(parse(bytes), Err(format(message)));
    }
    let mut bytes = fixed(-1, -1, -1, 99, -5, 77, true);
    bytes[208] = b'N';
    bytes[212] = 0x55;
    assert_eq!(parse(bytes), Err(format(message)));
}

#[test]
fn an_unknown_stamp_is_a_format_error() {
    let message = "the machine stamp names no byte order";
    for stamp in [[0x44u8, 0x41, 0, 0], [0x11, 0x44, 0, 0], [0, 0, 0, 0], [0x44, 0x44, 0, 1]] {
        let mut bytes = fixed(1, 1, 1, 0, 0, 0, false);
        bytes[212..216].copy_from_slice(&stamp);
        assert_eq!(parse(bytes), Err(format(message)));
    }
}

#[test]
fn negative_sizes_are_format_errors() {
    assert_eq!(parse(fixed(-1, 1, 1, 0, 0, 0, false)), Err(negative(-1)));
    assert_eq!(parse(fixed(1, -2, 1, 0, 0, 0, false)), Err(negative(-2)));
    assert_eq!(parse(fixed(1, 1, -3, 0, 0, 0, true)), Err(negative(-3)));
    assert_eq!(parse(fixed(1, 1, 1, 0, -80, 0, true)), Err(negative(-80)));
    assert_eq!(parse(fixed(1, 1, 1, 0, 0, -1, false)), Err(negative(-1)));
    assert_eq!(parse(fixed(i32::MIN, -2, -3, 0, -4, -5, false)), Err(negative(i32::MIN)));
}

#[test]
fn symmetry_records_are_whole() {
    let message = "the extended header is not made of whole records";
    for tag in [b"CCP4", b"MRCO"] {
        let mut bytes = fixed(1, 1, 1, 0, 100, 0, false);
        bytes[104..108].copy_from_slice(tag);
        bytes.extend_from_slice(&[0u8; 100]);
        assert_eq!(parse(bytes), Err(format(message)));
        let mut bytes = fixed(1, 1, 1, 0, 160, 0, false);
        bytes[104..108].copy_from_slice(tag);
        bytes.extend_from_slice(&[3u8; 160]);
        let header = parse(bytes).unwrap();
        assert_eq!(header.nsymbt, 160);
        assert_eq!(header.extended, vec![3u8; 160]);
    }
}

#[test]
fn other_metadata_has_any_length() {
    for tag in [b"SERI", b"AGAR", b"FEI1", b"HDF5", b"\0\0\0\0", b"XXXX"] {
        let mut bytes = fixed(1, 1, 1, 0, 100, 0, true);
        bytes[104..108].copy_from_slice(tag);
        bytes.extend_from_slice(&[9u8; 100]);
        let header = parse(bytes).unwrap();
        assert_eq!(header.extended, vec![9u8; 100]);
        assert_eq!(header.data_offset(), 324);
    }
}

#[test]
fn the_kind_of_the_extended_header_is_recognized() {
    let kinds = [
        (b"CCP4", ExtType::Ccp4),
        (b"MRCO", ExtType::Mrco),
        (b"SERI", ExtType::Seri),
        (b"AGAR", ExtType::Agar),
        (b"FEI1", ExtType::Fei1),
        (b"HDF5", ExtType::Hdf5),
    ];
    for (tag, kind) in kinds {
        let mut bytes = fixed(1, 1, 1, 0, 0, 0, false);
        bytes[104..108].copy_from_slice(tag);
        put_i32(&mut bytes, 108, 20141, false);
        let header = parse(bytes).unwrap();
        assert_eq!(header.extra, Some(Extra { ext_type: kind, nversion: 20141 }));
        assert_eq!(ExtType::from_tag(tag, 0), Some(kind));
    }
    let mut bytes = fixed(1, 1, 1, 0, 0, 0, false);
    bytes[104..108].copy_from_slice(b"ccp4");
    let header = parse(bytes.clone()).unwrap();
    assert_eq!(header.extra, None);
    assert_eq!(header.extra_bytes, bytes[96..196].to_vec());
    assert_eq!(record_size(Some(ExtType::Ccp4)), 80);
    assert_eq!(record_size(Some(ExtType::Mrco)), 80);
    assert_eq!(record_size(Some(ExtType::Fei1)), 1);
    assert_eq!(record_size(None), 1);
}

#[test]
fn more_than_ten_labels_is_a_format_error() {
    let mut bytes = fixed(1, 1, 1, 0, 0, 11, false);
    bytes.extend_from_slice(&[b' '; 880]);
    assert_eq!(parse(bytes), Err(format("more than ten labels are declared")));
    let mut bytes = fixed(1, 1, 1, 0, 0, 10, false);
    bytes.extend_from_slice(&[b' '; 800]);
    let header = parse(bytes).unwrap();
    assert_eq!(header.label, vec![String::new(); 10]);
}

#[test]
fn labels_are_trimmed() {
    let mut bytes = fixed(1, 1, 1, 0, 80, 3, true);
    bytes.extend_from_slice(&[1u8; 80]);
    let mut first = [b' '; 80];
    first[..11].copy_from_slice(b"first label");
    let mut second = [0u8; 80];
    second[..8].copy_from_slice(b" a  b \0c");
    second[70] = b' ';
    let third = [b'x'; 80];
    bytes.extend_from_slice(&first);
    bytes.extend_from_slice(&second);
    bytes.extend_from_slice(&third);
    let mut reader = SmartReader::wrap(bytes, ByteOrder::LittleEndian);
    let header = Header::parse(&mut reader, &Limits::default()).unwrap();
    assert_eq!(
        header.label,
        vec![String::from("first label"), String::from(" a  b \0c"), "x".repeat(80)]
    );
    assert_eq!(header.nlabl, 3);
    assert_eq!(reader.position(), 224 + 80 + 240);
    assert_eq!(header.data_offset(), 304);
}

#[test]
fn a_label_that_is_not_ascii_is_a_format_error() {
    let mut bytes = fixed(1, 1, 1, 0, 0, 2, false);
    bytes.extend_from_slice(&[b' '; 160]);
    bytes[224 + 80 + 3] = 0xE9;
    assert_eq!(parse(bytes), Err(format("a label holds a byte that is not ASCII")));
}

#[test]
fn an_extended_header_over_the_ceiling_is_refused() {
    let mut bytes = fixed(1, 1, 1, 0, 200, 0, false);
    bytes.extend_from_slice(&[0u8; 200]);
    let limits = Limits { decoding_buffer_size: 0, ifd_value_size: 199, intermediate_buffer_size: 0 };
    let mut reader = SmartReader::wrap(bytes.clone(), ByteOrder::LittleEndian);
    assert_eq!(Header::parse(&mut reader, &limits), Err(MrcError::LimitsExceeded));
    let limits = Limits { decoding_buffer_size: 0, ifd_value_size: 200, intermediate_buffer_size: 0 };
    let mut reader = SmartReader::wrap(bytes, ByteOrder::LittleEndian);
    assert_eq!(Header::parse(&mut reader, &limits).unwrap().nsymbt, 200);
    assert_eq!(parse(fixed(1, 1, 1, 0, i32::MAX, 0, false)), Err(MrcError::LimitsExceeded));
}

#[test]
fn a_truncated_extended_header_is_an_io_error() {
    let mut bytes = fixed(1, 1, 1, 0, 80, 0, false);
    bytes.extend_from_slice(&[0u8; 79]);
    assert_eq!(parse(bytes), Err(MrcError::IoError(MrcIoError::ShortRead)));
    let mut bytes = fixed(1, 1, 1, 0, 80, 1, false);
    bytes.extend_from_slice(&[0u8; 159]);
    assert_eq!(parse(bytes), Err(MrcError::IoError(MrcIoError::ShortRead)));
}

#[test]
fn parse_starts_at_the_cursor() {
    let mut bytes = vec![0xAAu8; 5];
    bytes.extend_from_slice(&fixed(4, 5, 6, 1, 0, 0, true));
    let mut reader = SmartReader::wrap(bytes, ByteOrder::LittleEndian);
    reader.seek(5).unwrap();
    let header = Header::parse(&mut reader, &Limits::default()).unwrap();
    assert_eq!((header.nx, header.ny, header.nz, header.mode), (4, 5, 6, 1));
    assert_eq!(reader.position(), 229);
}

#[test]
fn check_fixed_gives_the_byte_order() {
    assert_eq!(check_fixed(&fixed(1, 1, 1, 99, 0, 0, false)), Ok(ByteOrder::LittleEndian));
    assert_eq!(check_fixed(&fixed(1, 1, 1, 99, 0, 0, true)), Ok(ByteOrder::BigEndian));
    assert_eq!(check_fixed(&fixed(1, 1, -1, 0, 0, 0, true)), Err(negative(-1)));
}

#[test]
fn trimming_and_text() {
    let bytes = b"ab  \0 cd \0\0 ";
    assert_eq!(bytes.len(), 12);
    assert_eq!(trimmed_len(bytes, 0, 12), 8);
    assert_eq!(trimmed_len(bytes, 0, 6), 2);
    assert_eq!(trimmed_len(bytes, 2, 4), 0);
    assert_eq!(trimmed_len(bytes, 0, 0), 0);
    assert_eq!(text_of(bytes, 6, 2), "cd");
    assert_eq!(text_of(b"\xE9", 0, 1), "\u{e9}");
    assert!(is_ascii_range(bytes, 0, 12));
    assert!(!is_ascii_range(b"a\x80b", 0, 3));
    assert!(is_ascii_range(b"a\x80b", 2, 1));
    assert!(is_ascii_range(b"a\x7Fb", 0, 3));
}

#[test]
fn read_labels_reads_each_record() {
    let mut block = vec![b' '; 160];
    block[0] = b'A';
    block[80] = b'B';
    block[81] = b'C';
    assert_eq!(read_labels(&block, 2), Ok(vec![String::from("A"), String::from("BC")]));
    assert_eq!(read_labels(&[], 0), Ok(vec![]));
    block[100] = 0xFF;
    assert_eq!(read_labels(&block, 2), Err(format("a label holds a byte that is not ASCII")));
}
