use kcounter::user_buffer::VALUE_SIZE;
use kcounter::{DeviceInstance, ErrorKind, UserBuffer, RESPOND};

fn request(d: &DeviceInstance) -> u32 {
    let mut out = UserBuffer::new(VALUE_SIZE);
    assert_eq!(d.handle_request(RESPOND, &mut out), Ok(()));
    out.read_value().unwrap()
}

#[test]
fn sequential_requests_return_each_value_once() {
    let d = DeviceInstance::open();
    for expected in 0u32..1000 {
        assert_eq!(request(&d), expected);
    }
}

#[test]
fn instances_count_independently() {
    let a = DeviceInstance::open();
    let b = DeviceInstance::open();
    assert_eq!(request(&a), 0);
    assert_eq!(request(&a), 1);
    assert_eq!(request(&a), 2);
    assert_eq!(request(&b), 0);
    assert_eq!(request(&a), 3);
    assert_eq!(request(&b), 1);
}

#[test]
fn unsupported_request_leaves_counter_and_buffer() {
    let d = DeviceInstance::open();
    let mut out = UserBuffer::from_bytes(vec![9, 8, 7, 6, 5]);
    assert_eq!(d.handle_request(RESPOND + 1, &mut out), Err(ErrorKind::UnsupportedRequest));
    assert_eq!(d.handle_request(0, &mut out), Err(ErrorKind::UnsupportedRequest));
    assert_eq!(out.as_bytes(), &[9, 8, 7, 6, 5]);
    assert_eq!(request(&d), 0);
    assert_eq!(d.handle_request(0x1234, &mut out), Err(ErrorKind::UnsupportedRequest));
    assert_eq!(request(&d), 1);
}

#[test]
fn short_buffer_is_too_small() {
    let d = DeviceInstance::open();
    for capacity in 0usize..4 {
        let mut out = UserBuffer::new(capacity);
        assert_eq!(d.handle_request(RESPOND, &mut out), Err(ErrorKind::BufferTooSmall));
        assert_eq!(out.capacity(), capacity);
        assert!(out.as_bytes().iter().all(|b| *b == 0));
    }
    // each failed copy still consumed a value
    assert_eq!(request(&d), 4);
}

#[test]
fn counter_resets_per_instance() {
    let d = DeviceInstance::open();
    assert_eq!(request(&d), 0);
    assert_eq!(request(&d), 1);
    d.close();
    let d = DeviceInstance::open();
    assert_eq!(request(&d), 0);
}

#[test]
fn respond_returns_value_written() {
    let d = DeviceInstance::open();
    let mut out = UserBuffer::from_bytes(vec![0xaa; 6]);
    assert_eq!(d.respond(&mut out), Ok(0));
    assert_eq!(out.as_bytes(), &[0, 0, 0, 0, 0xaa, 0xaa]);
    assert_eq!(d.respond(&mut out), Ok(1));
    assert_eq!(out.as_bytes(), &[1, 0, 0, 0, 0xaa, 0xaa]);
    let mut short = UserBuffer::new(3);
    assert_eq!(d.respond(&mut short), Err(ErrorKind::BufferTooSmall));
    assert_eq!(d.respond(&mut out), Ok(3));
}

#[test]
fn request_code_is_read_of_four_bytes() {
    assert_eq!(RESPOND, 0x8004_7c81);
    assert_eq!((RESPOND >> 16) & 0x3fff, 4);
    assert_eq!((RESPOND >> 8) & 0xff, '|' as u32);
    assert_eq!(RESPOND & 0xff, 0x81);
}

#[test]
fn value_is_written_little_endian() {
    let mut out = UserBuffer::from_bytes(vec![0xff; 4]);
    assert_eq!(out.write_value(0x0102_0304), Ok(()));
    assert_eq!(out.as_bytes(), &[4, 3, 2, 1]);
    assert_eq!(out.read_value(), Some(0x0102_0304));
    assert_eq!(out.write_value(u32::MAX), Ok(()));
    assert_eq!(out.read_value(), Some(u32::MAX));
}

#[test]
fn write_keeps_bytes_past_the_value() {
    let mut out = UserBuffer::from_bytes(vec![1, 2, 3, 4, 5, 6, 7]);
    assert_eq!(out.write_value(0), Ok(()));
    assert_eq!(out.as_bytes(), &[0, 0, 0, 0, 5, 6, 7]);
}

#[test]
fn short_region_rejects_write_and_read() {
    let mut out = UserBuffer::from_bytes(vec![1, 2, 3]);
    assert_eq!(out.write_value(7), Err(ErrorKind::BufferTooSmall));
    assert_eq!(out.as_bytes(), &[1, 2, 3]);
    assert_eq!(out.read_value(), None);
    assert_eq!(UserBuffer::new(0).read_value(), None);
}

#[test]
fn new_region_is_zeroed() {
    let out = UserBuffer::new(5);
    assert_eq!(out.capacity(), 5);
    assert_eq!(out.as_bytes(), &[0, 0, 0, 0, 0]);
    assert_eq!(out.read_value(), Some(0));
}

#[test]
fn errors_map_to_host_numbers() {
    assert_eq!(ErrorKind::AllocationFailure.errno(), 12);
    assert_eq!(ErrorKind::RegistrationConflict.errno(), 16);
    assert_eq!(ErrorKind::BufferTooSmall.errno(), 22);
    assert_eq!(ErrorKind::UnsupportedRequest.errno(), 25);
}
