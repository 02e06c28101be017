use console_stdio::flags::{FileIOType, OpenFlags, SeekFrom, StdioError, O_CLOEXEC};
use console_stdio::ring::{AxRxRingBuffer, StdioRingBuffer};
use console_stdio::stdio::{console_write_bytes, stdin_read, stdout_write, Stderr, Stdin, Stdout};

#[test]
fn set_status_rejects_other_flags() {
    let mut s = Stdin::new();
    assert!(!s.set_status(OpenFlags::from_bits(0x1)));
    assert_eq!(s.get_status().bits(), 0);
    assert!(!s.set_status(OpenFlags::from_bits(O_CLOEXEC | 0x1)));
    assert_eq!(s.get_status().bits(), 0);
    assert!(s.set_status(OpenFlags::cloexec()));
    assert_eq!(s.get_status().bits(), O_CLOEXEC);
}

#[test]
fn close_on_exec_toggles() {
    let mut s = Stdout::new();
    assert!(s.set_close_on_exec(true));
    assert!(s.get_status().contains(OpenFlags::cloexec()));
    assert!(s.set_close_on_exec(false));
    assert!(!s.get_status().contains(OpenFlags::cloexec()));
    let mut e = Stderr::new();
    e.flags = OpenFlags::from_bits(0x2);
    assert!(e.set_close_on_exec(true));
    assert_eq!(e.get_status().bits(), 0x2 | O_CLOEXEC);
    assert!(e.set_close_on_exec(false));
    assert_eq!(e.get_status().bits(), 0x2);
}

#[test]
fn stderr_set_status_keeps_flags_on_failure() {
    let mut e = Stderr::new();
    e.set_close_on_exec(true);
    assert!(!e.set_status(OpenFlags::empty()));
    assert_eq!(e.get_status().bits(), O_CLOEXEC);
}

#[test]
fn seek_is_unsupported_everywhere() {
    assert_eq!(Stdin::new().seek(SeekFrom::Start(0)), Err(StdioError::Unsupported));
    assert_eq!(Stdout::new().seek(SeekFrom::Current(1)), Err(StdioError::Unsupported));
    assert_eq!(Stderr::new().seek(SeekFrom::End(-1)), Err(StdioError::Unsupported));
}

#[test]
fn capabilities() {
    let i = Stdin::new();
    assert!(i.readable() && !i.writable() && !i.executable());
    assert!(i.ready_to_read() && !i.ready_to_write());
    assert_eq!(i.get_type(), FileIOType::Stdin);
    let o = Stdout::new();
    assert!(!o.readable() && o.writable() && !o.executable());
    assert!(!o.ready_to_read() && o.ready_to_write());
    assert_eq!(o.get_type(), FileIOType::Stdout);
    let e = Stderr::new();
    assert!(!e.readable() && e.writable() && !e.executable());
    assert_eq!(e.get_type(), FileIOType::Stderr);
    assert_eq!(e.flush(), Ok(()));
    assert_eq!(o.flush(), Ok(()));
}

#[test]
fn output_endpoints_translate() {
    let mut out = Vec::new();
    assert_eq!(Stdout::new().write(b"a\n", &mut out), Ok(2));
    assert_eq!(Stderr::new().write(&[0x7F], &mut out), Ok(1));
    assert_eq!(out, vec![b'a', b'\r', b'\n', 8, b' ', 8]);
    let mut out2 = Vec::new();
    assert_eq!(stdout_write(b"\n", &mut out2), Ok(1));
    assert_eq!(console_write_bytes(b"x", &mut out2), Ok(1));
    assert_eq!(out2, vec![b'\r', b'\n', b'x']);
}

#[test]
fn stdin_fast_path_hands_byte_at_once() {
    let mut rx = AxRxRingBuffer::new();
    let mut line = StdioRingBuffer::new();
    rx.push(0x0D);
    let mut buf = [0u8; 4];
    assert_eq!(Stdin::new().read(&mut rx, &mut line, &mut buf), Some(1));
    assert_eq!(buf, [0x0A, 0, 0, 0]);
    assert_eq!(Stdin::new().read(&mut rx, &mut line, &mut buf), None);
}

#[test]
fn stdin_serves_held_line_first() {
    let s = Stdin::new();
    let mut rx = AxRxRingBuffer::new();
    let mut line = StdioRingBuffer::new();
    line.push(b'a');
    line.push(b'\n');
    rx.push(b'b');
    let mut buf = [0u8; 1];
    assert_eq!(s.read(&mut rx, &mut line, &mut buf), Some(1));
    assert_eq!(buf[0], b'a');
    assert_eq!(s.read(&mut rx, &mut line, &mut buf), Some(1));
    assert_eq!(buf[0], b'\n');
    assert_eq!(s.read(&mut rx, &mut line, &mut buf), Some(1));
    assert_eq!(buf[0], b'b');
    assert!(rx.is_empty());
}

#[test]
fn stdin_waits_for_line_and_echoes() {
    let s = Stdin::new();
    let mut rx = AxRxRingBuffer::new();
    let mut line = StdioRingBuffer::new();
    let mut out = Vec::new();
    let mut buf = [0u8; 1];
    assert_eq!(s.read_step(&mut rx, &mut line, &mut out, &mut buf), None);
    rx.push(b'o');
    assert_eq!(s.read_step(&mut rx, &mut line, &mut out, &mut buf), None);
    rx.push(b'k');
    assert_eq!(s.read_step(&mut rx, &mut line, &mut out, &mut buf), None);
    rx.push(0x0D);
    assert_eq!(s.read_step(&mut rx, &mut line, &mut out, &mut buf), Some(1));
    assert_eq!(buf[0], b'o');
    assert_eq!(out, vec![b'o', b'k', b'\r', b'\n']);
    assert_eq!(s.read_step(&mut rx, &mut line, &mut out, &mut buf), Some(1));
    assert_eq!(buf[0], b'k');
    assert_eq!(s.read_step(&mut rx, &mut line, &mut out, &mut buf), Some(1));
    assert_eq!(buf[0], b'\n');
    assert_eq!(s.read_step(&mut rx, &mut line, &mut out, &mut buf), None);
}

#[test]
fn stdin_read_returns_count() {
    let mut rx = AxRxRingBuffer::new();
    rx.push(b'a');
    rx.push(0x0D);
    rx.push(b'c');
    let mut empty: [u8; 0] = [];
    assert_eq!(stdin_read(&mut rx, &mut empty), Ok(0));
    assert!(!rx.is_empty());
    let mut buf = [0u8; 2];
    assert_eq!(stdin_read(&mut rx, &mut buf), Ok(2));
    assert_eq!(buf, [b'a', b'\n']);
    let mut big = [7u8; 8];
    assert_eq!(stdin_read(&mut rx, &mut big), Ok(1));
    assert_eq!(big, [b'c', 7, 7, 7, 7, 7, 7, 7]);
    assert_eq!(stdin_read(&mut rx, &mut big), Ok(0));
}
