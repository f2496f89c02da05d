use mrc::decoder::limits::required_bytes;
use mrc::decoder::Limits;
use mrc::error::MrcError;

#[test]
fn default_limits() {
    let limits = Limits::default();
    assert_eq!(limits.decoding_buffer_size, 256 * 1024 * 1024);
    assert_eq!(limits.ifd_value_size, 1024 * 1024);
    assert_eq!(limits.intermediate_buffer_size, 128 * 1024 * 1024);
}

#[test]
fn required_bytes_is_the_product() {
    assert_eq!(required_bytes(10, 10, 10, 1, 1), Some(1000));
    assert_eq!(required_bytes(3, 5, 7, 2, 4), Some(840));
    assert_eq!(required_bytes(4, 4, 1, 3, 1), Some(48));
}

#[test]
fn required_bytes_of_nothing_is_zero() {
    assert_eq!(required_bytes(0, 0, 0, 1, 1), Some(0));
    assert_eq!(required_bytes(usize::MAX, usize::MAX, 0, 3, 8), Some(0));
    assert_eq!(required_bytes(0, usize::MAX, usize::MAX, 3, 8), Some(0));
}

#[test]
fn required_bytes_that_no_number_holds() {
    assert_eq!(required_bytes(usize::MAX, 2, 1, 1, 1), None);
    assert_eq!(required_bytes(usize::MAX, 1, 1, 1, 2), None);
    assert_eq!(required_bytes(1 << 31, 1 << 31, 1 << 31, 2, 4), None);
    assert_eq!(required_bytes(usize::MAX, 1, 1, 1, 1), Some(usize::MAX));
}

#[test]
fn volume_within_the_ceiling_is_admitted() {
    let limits = Limits { decoding_buffer_size: 1000, ifd_value_size: 0, intermediate_buffer_size: 0 };
    assert_eq!(limits.check_volume(10, 10, 10, 1, 1), Ok(1000));
    assert_eq!(limits.check_volume(0, 0, 0, 1, 1), Ok(0));
}

#[test]
fn volume_over_the_ceiling_is_refused() {
    let limits = Limits { decoding_buffer_size: 100, ifd_value_size: 0, intermediate_buffer_size: 0 };
    assert_eq!(limits.check_volume(10, 10, 10, 1, 1), Err(MrcError::LimitsExceeded));
    assert_eq!(limits.check_volume(101, 1, 1, 1, 1), Err(MrcError::LimitsExceeded));
    assert_eq!(limits.check_volume(100, 1, 1, 1, 1), Ok(100));
}

#[test]
fn overflow_does_not_pass_the_largest_ceiling() {
    let limits = Limits {
        decoding_buffer_size: usize::MAX,
        ifd_value_size: 0,
        intermediate_buffer_size: 0,
    };
    assert_eq!(limits.check_volume(usize::MAX, 2, 1, 1, 1), Err(MrcError::LimitsExceeded));
    assert_eq!(limits.check_volume(1 << 31, 1 << 31, 1 << 31, 3, 8), Err(MrcError::LimitsExceeded));
    assert_eq!(limits.check_volume(usize::MAX, 1, 1, 1, 1), Ok(usize::MAX));
}

#[test]
fn single_ceilings() {
    let limits = Limits { decoding_buffer_size: 10, ifd_value_size: 20, intermediate_buffer_size: 30 };
    assert_eq!(limits.check_buffer(10), Ok(()));
    assert_eq!(limits.check_buffer(11), Err(MrcError::LimitsExceeded));
    assert_eq!(limits.check_value(20), Ok(()));
    assert_eq!(limits.check_value(21), Err(MrcError::LimitsExceeded));
    assert_eq!(limits.check_read(30), Ok(()));
    assert_eq!(limits.check_read(31), Err(MrcError::LimitsExceeded));
}
