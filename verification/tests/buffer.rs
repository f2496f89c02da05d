use mrc::decoder::stream::{ByteOrder, SmartReader};
use mrc::decoder::{DecodingBuffer, DecodingResult, Limits};
use mrc::error::{MrcError, MrcIoError};
use mrc::registry::ElementType;

fn limits(bytes: usize) -> Limits {
    Limits { decoding_buffer_size: bytes, ifd_value_size: 0, intermediate_buffer_size: 0 }
}

#[test]
fn new_buffers_are_zeroed() {
    assert_eq!(DecodingResult::new_u8(3, &limits(3)), Ok(DecodingResult::U8(vec![0; 3])));
    assert_eq!(DecodingResult::new_u16(3, &limits(6)), Ok(DecodingResult::U16(vec![0; 3])));
    assert_eq!(DecodingResult::new_u32(3, &limits(12)), Ok(DecodingResult::U32(vec![0; 3])));
    assert_eq!(DecodingResult::new_u64(3, &limits(24)), Ok(DecodingResult::U64(vec![0; 3])));
    assert_eq!(DecodingResult::new_f32(3, &limits(12)), Ok(DecodingResult::F32(vec![0; 3])));
    assert_eq!(DecodingResult::new_f64(3, &limits(24)), Ok(DecodingResult::F64(vec![0; 3])));
    assert_eq!(DecodingResult::new_i8(3, &limits(3)), Ok(DecodingResult::I8(vec![0; 3])));
    assert_eq!(DecodingResult::new_i16(3, &limits(6)), Ok(DecodingResult::I16(vec![0; 3])));
    assert_eq!(DecodingResult::new_i32(3, &limits(12)), Ok(DecodingResult::I32(vec![0; 3])));
}

#[test]
fn new_buffers_over_the_ceiling_are_refused() {
    assert_eq!(DecodingResult::new_u8(4, &limits(3)), Err(MrcError::LimitsExceeded));
    assert_eq!(DecodingResult::new_u16(3, &limits(5)), Err(MrcError::LimitsExceeded));
    assert_eq!(DecodingResult::new_u32(3, &limits(11)), Err(MrcError::LimitsExceeded));
    assert_eq!(DecodingResult::new_u64(3, &limits(23)), Err(MrcError::LimitsExceeded));
    assert_eq!(DecodingResult::new_f32(3, &limits(11)), Err(MrcError::LimitsExceeded));
    assert_eq!(DecodingResult::new_f64(3, &limits(23)), Err(MrcError::LimitsExceeded));
    assert_eq!(DecodingResult::new_i8(4, &limits(3)), Err(MrcError::LimitsExceeded));
    assert_eq!(DecodingResult::new_i16(3, &limits(5)), Err(MrcError::LimitsExceeded));
    assert_eq!(DecodingResult::new_i32(3, &limits(11)), Err(MrcError::LimitsExceeded));
    assert_eq!(DecodingResult::new_u64(usize::MAX, &limits(usize::MAX)), Err(MrcError::LimitsExceeded));
}

#[test]
fn zeroed_picks_the_variant_of_the_element_type() {
    let l = limits(100);
    assert_eq!(DecodingResult::zeroed(ElementType::Int8, 2, &l), Ok(DecodingResult::I8(vec![0; 2])));
    assert_eq!(DecodingResult::zeroed(ElementType::Uint8, 2, &l), Ok(DecodingResult::U8(vec![0; 2])));
    assert_eq!(DecodingResult::zeroed(ElementType::Int16, 2, &l), Ok(DecodingResult::I16(vec![0; 2])));
    assert_eq!(DecodingResult::zeroed(ElementType::Uint16, 2, &l), Ok(DecodingResult::U16(vec![0; 2])));
    assert_eq!(DecodingResult::zeroed(ElementType::Int32, 2, &l), Ok(DecodingResult::I32(vec![0; 2])));
    assert_eq!(DecodingResult::zeroed(ElementType::Float32, 2, &l), Ok(DecodingResult::F32(vec![0; 2])));
    assert_eq!(DecodingResult::zeroed(ElementType::Float64, 2, &l), Ok(DecodingResult::F64(vec![0; 2])));
    assert_eq!(DecodingResult::zeroed(ElementType::Float64, 13, &l), Err(MrcError::LimitsExceeded));
    assert_eq!(DecodingResult::zeroed(ElementType::Int8, 0, &limits(0)), Ok(DecodingResult::I8(vec![])));
}

#[test]
fn as_buffer_lends_the_tail() {
    let mut result = DecodingResult::U16(vec![1, 2, 3, 4]);
    assert_eq!(result.len(), 4);
    {
        let buffer = result.as_buffer(1);
        assert_eq!(buffer.len(), 3);
        assert_eq!(buffer.byte_len(), 2);
        match buffer {
            DecodingBuffer::U16(lent) => {
                assert_eq!(lent.to_vec(), vec![2, 3, 4]);
                lent[0] = 20;
                lent[2] = 40;
            }
            _ => panic!("a buffer of another kind"),
        }
    }
    assert_eq!(result, DecodingResult::U16(vec![1, 20, 3, 40]));
    assert_eq!(result.as_buffer(4).len(), 0);
}

#[test]
fn byte_len_of_each_kind() {
    assert_eq!(DecodingResult::U8(vec![0]).as_buffer(0).byte_len(), 1);
    assert_eq!(DecodingResult::I8(vec![0]).as_buffer(0).byte_len(), 1);
    assert_eq!(DecodingResult::U16(vec![0]).as_buffer(0).byte_len(), 2);
    assert_eq!(DecodingResult::I16(vec![0]).as_buffer(0).byte_len(), 2);
    assert_eq!(DecodingResult::U32(vec![0]).as_buffer(0).byte_len(), 4);
    assert_eq!(DecodingResult::I32(vec![0]).as_buffer(0).byte_len(), 4);
    assert_eq!(DecodingResult::F32(vec![0]).as_buffer(0).byte_len(), 4);
    assert_eq!(DecodingResult::U64(vec![0]).as_buffer(0).byte_len(), 8);
    assert_eq!(DecodingResult::F64(vec![0]).as_buffer(0).byte_len(), 8);
}

#[test]
fn copy_lends_the_same_numbers() {
    let mut result = DecodingResult::I8(vec![1, 2, 3]);
    {
        let mut buffer = result.as_buffer(1);
        {
            let again = buffer.copy();
            assert_eq!(again.len(), 2);
            match again {
                DecodingBuffer::I8(lent) => lent[1] = -3,
                _ => panic!("a buffer of another kind"),
            }
        }
        assert_eq!(buffer.len(), 2);
        match buffer {
            DecodingBuffer::I8(lent) => assert_eq!(lent.to_vec(), vec![2, -3]),
            _ => panic!("a buffer of another kind"),
        }
    }
    assert_eq!(result, DecodingResult::I8(vec![1, 2, -3]));
}

#[test]
fn fill_from_reads_into_the_lent_part() {
    let mut reader = SmartReader::wrap(vec![0x01, 0x02, 0xFF, 0xFE, 9], ByteOrder::BigEndian);
    let mut result = DecodingResult::I16(vec![7, 7, 7]);
    assert_eq!(result.as_buffer(1).fill_from(&mut reader), Ok(()));
    assert_eq!(result, DecodingResult::I16(vec![7, 0x0102, -2]));
    assert_eq!(reader.position(), 4);
}

#[test]
fn fill_from_a_short_source_changes_nothing() {
    let mut reader = SmartReader::wrap(vec![1, 2, 3], ByteOrder::LittleEndian);
    let mut result = DecodingResult::U32(vec![5]);
    assert_eq!(result.as_buffer(0).fill_from(&mut reader), Err(MrcIoError::ShortRead));
    assert_eq!(result, DecodingResult::U32(vec![5]));
    assert_eq!(reader.position(), 0);
}

#[test]
fn fill_from_for_every_kind() {
    let bytes: Vec<u8> = vec![0x80, 1, 2, 3, 4, 5, 6, 7];
    let le = ByteOrder::LittleEndian;
    let mut r = DecodingResult::U8(vec![0; 2]);
    r.as_buffer(0).fill_from(&mut SmartReader::wrap(bytes.clone(), le)).unwrap();
    assert_eq!(r, DecodingResult::U8(vec![0x80, 1]));
    let mut r = DecodingResult::I8(vec![0; 2]);
    r.as_buffer(0).fill_from(&mut SmartReader::wrap(bytes.clone(), le)).unwrap();
    assert_eq!(r, DecodingResult::I8(vec![-128, 1]));
    let mut r = DecodingResult::U16(vec![0; 2]);
    r.as_buffer(0).fill_from(&mut SmartReader::wrap(bytes.clone(), le)).unwrap();
    assert_eq!(r, DecodingResult::U16(vec![0x0180, 0x0302]));
    let mut r = DecodingResult::I32(vec![0; 2]);
    r.as_buffer(0).fill_from(&mut SmartReader::wrap(bytes.clone(), le)).unwrap();
    assert_eq!(r, DecodingResult::I32(vec![0x0302_0180, 0x0706_0504]));
    let mut r = DecodingResult::U32(vec![0; 2]);
    r.as_buffer(0).fill_from(&mut SmartReader::wrap(bytes.clone(), le)).unwrap();
    assert_eq!(r, DecodingResult::U32(vec![0x0302_0180, 0x0706_0504]));
    let mut r = DecodingResult::F32(vec![0; 2]);
    r.as_buffer(0).fill_from(&mut SmartReader::wrap(bytes.clone(), le)).unwrap();
    assert_eq!(r, DecodingResult::F32(vec![0x0302_0180, 0x0706_0504]));
    let mut r = DecodingResult::U64(vec![0; 1]);
    r.as_buffer(0).fill_from(&mut SmartReader::wrap(bytes.clone(), le)).unwrap();
    assert_eq!(r, DecodingResult::U64(vec![0x0706_0504_0302_0180]));
    let mut r = DecodingResult::F64(vec![0; 1]);
    r.as_buffer(0).fill_from(&mut SmartReader::wrap(bytes.clone(), le)).unwrap();
    assert_eq!(r, DecodingResult::F64(vec![0x0706_0504_0302_0180]));
}
