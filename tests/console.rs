use console_stdio::console::{canonical_byte, console_read_bytes, getchar, handle, putchar, write_bytes};
use console_stdio::ring::AxRxRingBuffer;

#[test]
fn write_translates_line_feed_and_delete() {
    let mut out = Vec::new();
    let n = write_bytes(&[0x41, 0x0A, 0x7F], &mut out);
    assert_eq!(n, 3);
    assert_eq!(out, vec![0x41, 0x0D, 0x0A, 0x08, 0x20, 0x08]);
}

#[test]
fn putchar_passes_other_bytes() {
    let mut out = vec![1];
    putchar(b'z', &mut out);
    assert_eq!(out, vec![1, b'z']);
    putchar(b'\n', &mut out);
    assert_eq!(out, vec![1, b'z', b'\r', b'\n']);
}

#[test]
fn write_empty_sends_nothing() {
    let mut out = Vec::new();
    assert_eq!(write_bytes(&[], &mut out), 0);
    assert!(out.is_empty());
}

#[test]
fn carriage_return_read_as_line_feed() {
    let mut rx = AxRxRingBuffer::new();
    rx.push(0x0D);
    rx.push(b'q');
    assert_eq!(console_read_bytes(&mut rx), Some(0x0A));
    assert_eq!(console_read_bytes(&mut rx), Some(b'q'));
    assert_eq!(console_read_bytes(&mut rx), None);
    assert_eq!(canonical_byte(0x0D), 0x0A);
    assert_eq!(canonical_byte(0x0A), 0x0A);
}

#[test]
fn getchar_returns_raw_byte() {
    let mut rx = AxRxRingBuffer::new();
    rx.push(0x0D);
    assert_eq!(getchar(&mut rx), Some(0x0D));
    assert_eq!(getchar(&mut rx), None);
}

#[test]
fn interrupt_drain_stores_bytes() {
    let mut rx = AxRxRingBuffer::new();
    let device = [b'h', b'i'];
    let mut i = 0;
    loop {
        let next = if i < device.len() { Some(device[i]) } else { None };
        i += 1;
        if !handle(&mut rx, next) {
            break;
        }
    }
    assert_eq!(i, 3);
    assert_eq!(rx.pop(), Some(b'h'));
    assert_eq!(rx.pop(), Some(b'i'));
    assert_eq!(rx.pop(), None);
}

#[test]
fn interrupt_with_no_data_is_noop() {
    let mut rx = AxRxRingBuffer::new();
    assert!(!handle(&mut rx, None));
    assert!(rx.is_empty());
}

#[test]
fn writing_in_parts_matches_writing_at_once() {
    let data = [b'a', 0x0A, 0x7F, b'b', 0x0A];
    let mut whole = Vec::new();
    write_bytes(&data, &mut whole);
    let mut parts = Vec::new();
    write_bytes(&data[..2], &mut parts);
    write_bytes(&data[2..], &mut parts);
    assert_eq!(whole, parts);
    assert_eq!(whole, vec![b'a', 13, 10, 8, 32, 8, b'b', 13, 10]);
}
