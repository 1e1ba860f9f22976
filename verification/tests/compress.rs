use benet::compress::{Error, InputBuffer, OutputBuffer};
use std::io::ErrorKind;

#[test]
fn input_buffer_shows_its_bytes() {
    let bytes = [1u8, 2, 3];
    let buffer = InputBuffer::new(&bytes);
    assert_eq!(buffer.as_ref(), &[1u8, 2, 3]);
    let empty = InputBuffer::new(&[]);
    assert!(empty.as_ref().is_empty());
}

#[test]
fn new_output_buffer_is_unwritten() {
    let buffer = OutputBuffer::new(16);
    assert_eq!(buffer.len(), 16);
    assert_eq!(buffer.written(), 0);
    assert!(buffer.as_slice().is_empty());
}

#[test]
fn is_empty_tells_whether_the_buffer_has_length() {
    assert!(OutputBuffer::new(16).is_empty());
    assert!(OutputBuffer::new(1).is_empty());
    assert!(!OutputBuffer::new(0).is_empty());
}

#[test]
fn write_appends_and_advances() {
    let mut buffer = OutputBuffer::new(8);
    assert_eq!(buffer.write(&[1, 2, 3]).ok(), Some(3));
    assert_eq!(buffer.written(), 3);
    assert_eq!(buffer.as_slice(), &[1u8, 2, 3]);
    assert_eq!(buffer.write(&[4, 5]).ok(), Some(2));
    assert_eq!(buffer.written(), 5);
    assert_eq!(buffer.as_slice(), &[1u8, 2, 3, 4, 5]);
    assert_eq!(buffer.len(), 8);
}

#[test]
fn write_fills_the_buffer_to_the_brim() {
    let mut buffer = OutputBuffer::new(4);
    assert_eq!(buffer.write(&[9, 8, 7, 6]).ok(), Some(4));
    assert_eq!(buffer.written(), 4);
    assert_eq!(buffer.write(&[]).ok(), Some(0));
    assert_eq!(buffer.as_slice(), &[9u8, 8, 7, 6]);
}

#[test]
fn write_beyond_the_length_is_write_zero() {
    let mut buffer = OutputBuffer::new(4);
    assert_eq!(buffer.write(&[1, 2, 3]).ok(), Some(3));
    match buffer.write(&[4, 5]) {
        Ok(_) => panic!("the buffer grew"),
        Err(err) => assert_eq!(err.kind(), ErrorKind::WriteZero),
    }
    assert_eq!(buffer.written(), 3);
    assert_eq!(buffer.as_slice(), &[1u8, 2, 3]);
    assert_eq!(buffer.len(), 4);
    assert_eq!(buffer.write(&[4]).ok(), Some(1));
    assert_eq!(buffer.as_slice(), &[1u8, 2, 3, 4]);
}

#[test]
fn write_into_a_buffer_without_length_fails() {
    let mut buffer = OutputBuffer::new(0);
    match buffer.write(&[1]) {
        Ok(_) => panic!("the buffer grew"),
        Err(err) => assert_eq!(err.kind(), ErrorKind::WriteZero),
    }
    assert_eq!(buffer.write(&[]).ok(), Some(0));
    assert_eq!(buffer.written(), 0);
}

#[test]
fn flush_changes_nothing() {
    let mut buffer = OutputBuffer::new(4);
    assert_eq!(buffer.write(&[1, 2]).ok(), Some(2));
    assert!(buffer.flush().is_ok());
    assert_eq!(buffer.written(), 2);
    assert_eq!(buffer.as_slice(), &[1u8, 2]);
    assert_eq!(buffer.len(), 4);
}

#[test]
fn io_error_converts_into_compress_error() {
    let io = std::io::Error::from(ErrorKind::WriteZero);
    let error = Error::from(io);
    assert_eq!(format!("{:?}", error), "Error");
}
