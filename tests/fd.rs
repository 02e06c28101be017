use console_stdio::fd::{stdin, stdout, StdinRaw, StdoutRaw};
use console_stdio::flags::{PollState, StdioError};
use console_stdio::ring::AxRxRingBuffer;

#[test]
fn blocking_read_waits_for_producer() {
    let s = stdin();
    let mut rx = AxRxRingBuffer::new();
    let mut buf = [0u8; 1];
    let mut rounds = 0;
    let n = loop {
        if rounds == 3 {
            rx.push(b'Z');
        }
        if let Some(n) = s.read_blocked(&mut rx, &mut buf) {
            break n;
        }
        rounds += 1;
    };
    assert_eq!(n, 1);
    assert_eq!(rounds, 3);
    assert_eq!(buf[0], b'Z');
}

#[test]
fn blocking_read_of_nothing_returns_at_once() {
    let mut rx = AxRxRingBuffer::new();
    let mut buf: [u8; 0] = [];
    assert_eq!(stdin().read_blocked(&mut rx, &mut buf), Some(0));
}

#[test]
fn raw_read_takes_what_waits() {
    let mut rx = AxRxRingBuffer::new();
    for b in [b'a', 0x0D, b'c'] {
        rx.push(b);
    }
    let mut buf = [9u8; 2];
    assert_eq!(StdinRaw.read(&mut rx, &mut buf), Ok(2));
    assert_eq!(buf, [b'a', b'\n']);
    let mut big = [9u8; 4];
    assert_eq!(StdinRaw.read(&mut rx, &mut big), Ok(1));
    assert_eq!(big, [b'c', 9, 9, 9]);
    assert_eq!(StdinRaw.read(&mut rx, &mut big), Ok(0));
}

#[test]
fn direction_errors() {
    assert_eq!(stdin().write(b"x"), Err(StdioError::PermissionDenied));
    let mut buf = [0u8; 2];
    assert_eq!(stdout().read(&mut buf), Err(StdioError::PermissionDenied));
}

#[test]
fn stat_modes() {
    let i = stdin().stat().unwrap();
    assert_eq!((i.st_ino, i.st_nlink, i.st_mode), (1, 1, 0o20440));
    let o = stdout().stat().unwrap();
    assert_eq!((o.st_ino, o.st_nlink, o.st_mode), (1, 1, 0o20220));
}

#[test]
fn poll_states() {
    let mut rx = AxRxRingBuffer::new();
    assert_eq!(stdin().poll(&rx), Ok(PollState { readable: false, writable: false }));
    rx.push(1);
    assert_eq!(stdin().poll(&rx), Ok(PollState { readable: true, writable: false }));
    assert_eq!(stdout().poll(), Ok(PollState { readable: true, writable: true }));
    assert_eq!(stdin().set_nonblocking(true), Ok(()));
    assert_eq!(stdout().set_nonblocking(false), Ok(()));
}

#[test]
fn output_descriptor_writes_all() {
    let mut out = Vec::new();
    assert_eq!(stdout().write(b"\n\x7f", &mut out), Ok(2));
    assert_eq!(out, vec![b'\r', b'\n', 8, b' ', 8]);
    assert_eq!(stdout().flush(), Ok(()));
    assert_eq!(StdoutRaw.write(b"q", &mut out), Ok(1));
    assert_eq!(StdoutRaw.flush(), Ok(()));
}
