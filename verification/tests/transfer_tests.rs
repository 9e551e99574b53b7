use chrdev::errors::DeviceError;
use chrdev::transfer::read_bytes;
use chrdev::transfer::write_bytes;
use chrdev::transfer::CAPACITY;

#[test]
fn write_bytes_copies_in_place() {
    let mut buf = vec![0u8; CAPACITY];
    let n = write_bytes(&mut buf, 5, &[1, 2, 3]).unwrap();
    assert_eq!(n, 3);
    assert_eq!(&buf[..10], &[0, 0, 0, 0, 0, 1, 2, 3, 0, 0]);
    assert_eq!(buf.len(), CAPACITY);
}

#[test]
fn write_bytes_clamps_at_the_end() {
    let mut buf = vec![0u8; CAPACITY];
    let n = write_bytes(&mut buf, (CAPACITY - 2) as u64, &[9, 9, 9, 9]).unwrap();
    assert_eq!(n, 2);
    assert_eq!(buf.len(), CAPACITY);
    assert_eq!(&buf[CAPACITY - 3..], &[0, 9, 9]);
}

#[test]
fn write_bytes_rejects_an_offset_past_capacity() {
    let mut buf = vec![0u8; CAPACITY];
    let r = write_bytes(&mut buf, (CAPACITY + 1) as u64, &[1]);
    assert_eq!(r, Err(DeviceError::InvalidOffsetError));
    assert!(buf.iter().all(|&b| b == 0));
}

#[test]
fn read_bytes_fills_the_front_of_the_sink() {
    let mut buf = vec![0u8; CAPACITY];
    buf[20] = 0xCC;
    buf[21] = 0xDD;
    let mut out = vec![0xEEu8; 4];
    let n = read_bytes(&buf, 20, &mut out).unwrap();
    assert_eq!(n, 4);
    assert_eq!(out, vec![0xCC, 0xDD, 0, 0]);
}

#[test]
fn read_bytes_clamps_and_keeps_the_tail_of_the_sink() {
    let mut buf = vec![0u8; CAPACITY];
    buf[CAPACITY - 1] = 0x42;
    let mut out = vec![0x77u8; 5];
    let n = read_bytes(&buf, (CAPACITY - 1) as u64, &mut out).unwrap();
    assert_eq!(n, 1);
    assert_eq!(out, vec![0x42, 0x77, 0x77, 0x77, 0x77]);
}

#[test]
fn read_bytes_rejects_an_offset_past_capacity() {
    let buf = vec![0u8; CAPACITY];
    let mut out = vec![1u8; 3];
    let r = read_bytes(&buf, (CAPACITY + 1) as u64, &mut out);
    assert_eq!(r, Err(DeviceError::InvalidOffsetError));
    assert_eq!(out, vec![1u8; 3]);
}

#[test]
fn read_bytes_at_capacity_reads_nothing() {
    let buf = vec![3u8; CAPACITY];
    let mut out = vec![8u8; 6];
    let n = read_bytes(&buf, CAPACITY as u64, &mut out).unwrap();
    assert_eq!(n, 0);
    assert_eq!(out, vec![8u8; 6]);
}
