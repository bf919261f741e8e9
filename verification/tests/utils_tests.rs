//! Scenarios for the bounds-checked memory view primitives and the
//! small context helpers.

use zelf::context::Context;
use zelf::utils::{align, as_offset, read, read_n, read_s};
use zelf::{Class, Data, Version};

#[test]
fn read_stays_in_bounds() {
    let data = [1u8, 2, 3, 4];
    assert_eq!(read(&data, 0, 4), Some(&data[..]));
    assert_eq!(read(&data, 1, 3), Some(&data[1..4]));
    assert_eq!(read(&data, 4, 0), Some(&data[4..4]));
    assert_eq!(read(&data, 3, 2), None);
    assert_eq!(read(&data, 5, 0), None);
}

#[test]
fn read_overflowing_offset_is_absent() {
    // The offset plus the record size overflows the address width: the
    // reader must answer with absence, never wrap around.
    let data = [0u8; 16];
    assert_eq!(read(&data, usize::MAX, 2), None);
    assert_eq!(read(&data, usize::MAX, usize::MAX), None);
    assert_eq!(read_n(&data, usize::MAX, 8, usize::MAX), None);
    assert_eq!(read_n(&data, 8, usize::MAX, usize::MAX), None);
}

#[test]
fn read_n_checks_the_multiplication() {
    let data = [0u8; 16];
    assert_eq!(read_n(&data, 0, 4, 4), Some(&data[..]));
    assert_eq!(read_n(&data, 0, 4, 5), None);
    assert_eq!(read_n(&data, 8, 4, 2), Some(&data[8..16]));
    assert_eq!(read_n(&data, 0, 0, usize::MAX), Some(&data[0..0]));
}

#[test]
fn read_s_drops_trailing_partial_record() {
    let data = [1u8, 2, 3, 4, 5, 6, 7];
    assert_eq!(read_s(&data, 3), Some(&data[0..6]));
    assert_eq!(read_s(&data, 7), Some(&data[0..7]));
    assert_eq!(read_s(&data, 8), Some(&data[0..0]));
    assert_eq!(read_s(&data, 0), None);
}

#[test]
fn align_rounds_up_to_the_next_multiple() {
    assert_eq!(align(0, 8), 0);
    assert_eq!(align(1, 8), 8);
    assert_eq!(align(8, 8), 8);
    assert_eq!(align(9, 8), 16);
    assert_eq!(align(13, 4), 16);
    assert_eq!(align(5, 1), 5);
}

#[test]
fn align_is_idempotent() {
    for off in [0usize, 1, 7, 8, 9, 100, 1023] {
        for a in [1usize, 2, 4, 8, 16] {
            let once = align(off, a);
            assert_eq!(align(once, a), once);
            assert_eq!(once % a, 0);
            assert!(once >= off && once < off + a);
        }
    }
}

#[test]
fn as_offset_converts_in_range_values() {
    assert_eq!(as_offset(0), Some(0));
    assert_eq!(as_offset(0x1234), Some(0x1234));
}

#[test]
fn context_properties() {
    assert_eq!(Context::Little32.class(), Class::Class32);
    assert_eq!(Context::Little32.data(), Data::Little);
    assert_eq!(Context::Big64.class(), Class::Class64);
    assert_eq!(Context::Big64.data(), Data::Big);
    assert_eq!(Context::Big32.usize_bytes(), 4);
    assert_eq!(Context::Little64.usize_bytes(), 8);
    for c in [Context::Little32, Context::Little64, Context::Big32, Context::Big64] {
        assert_eq!(c.version(), Version::One);
        assert_eq!(Context::from_class_data(c.class(), c.data()), c);
    }
}

#[test]
fn class_data_version_bytes() {
    assert_eq!(Class::from_u8(1), Some(Class::Class32));
    assert_eq!(Class::from_u8(2), Some(Class::Class64));
    assert_eq!(Class::from_u8(0), None);
    assert_eq!(Class::Class64.to_u8(), 2);
    assert_eq!(Data::from_u8(1), Some(Data::Little));
    assert_eq!(Data::from_u8(2), Some(Data::Big));
    assert_eq!(Data::from_u8(9), None);
    assert_eq!(Data::Big.to_u8(), 2);
    assert_eq!(Version::from_u8(1), Some(Version::One));
    assert_eq!(Version::from_u8(0), None);
    assert_eq!(Version::One.to_u8(), 1);
}
