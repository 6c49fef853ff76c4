//! Tests of pty allocation against the real OS pty facility: descriptor
//! flags, the geometry request, and byte round trips through the pair.

use pty_relay::pty::{size_request, Pty, WinSize};

use nix::errno::Errno;
use nix::fcntl::{fcntl, FcntlArg, FdFlag, OFlag};
use nix::unistd::{close, read};

/// Read from the non-blocking master, retrying while the line discipline has
/// not produced the bytes yet.
fn read_master(fd: i32, buf: &mut [u8]) -> usize {
    let mut spins: u32 = 0;
    loop {
        match read(fd, buf) {
            Ok(n) => return n,
            Err(Errno::EAGAIN) => {
                spins += 1;
                assert!(spins < 10_000_000, "no bytes arrived on the pty master");
            }
            Err(e) => panic!("read on pty master failed: {}", e),
        }
    }
}

fn close_pair(pty: &Pty) {
    let _ = close(pty.master);
    let _ = close(pty.slave);
}

#[test]
fn size_request_passes_positive_geometry_through() {
    assert_eq!(size_request(24, 80), Some(WinSize { rows: 24, cols: 80 }));
    assert_eq!(size_request(1, 1), Some(WinSize { rows: 1, cols: 1 }));
    assert_eq!(size_request(0, 80), None);
    assert_eq!(size_request(24, 0), None);
    assert_eq!(size_request(0, 0), None);
}

#[test]
fn open_yields_a_configured_pair() {
    let pty = Pty::open(24, 80).expect("pty allocation failed");
    assert!(pty.master >= 0);
    assert!(pty.slave >= 0);
    assert_ne!(pty.master, pty.slave);
    assert_eq!(pty.rows, 24);
    assert_eq!(pty.cols, 80);
    assert!(pty.stdin && pty.stdout && pty.stderr);
    close_pair(&pty);
}

#[test]
fn master_is_nonblocking_and_slave_is_blocking() {
    let pty = Pty::open(24, 80).expect("pty allocation failed");
    let master_flags = fcntl(pty.master, FcntlArg::F_GETFL).expect("fcntl on master failed");
    let slave_flags = fcntl(pty.slave, FcntlArg::F_GETFL).expect("fcntl on slave failed");
    assert!(OFlag::from_bits_truncate(master_flags).contains(OFlag::O_NONBLOCK));
    assert!(!OFlag::from_bits_truncate(slave_flags).contains(OFlag::O_NONBLOCK));
    close_pair(&pty);
}

#[test]
fn master_is_close_on_exec() {
    let pty = Pty::open(24, 80).expect("pty allocation failed");
    let fd_flags = fcntl(pty.master, FcntlArg::F_GETFD).expect("fcntl on master failed");
    assert!(FdFlag::from_bits_truncate(fd_flags).contains(FdFlag::FD_CLOEXEC));
    close_pair(&pty);
}

#[test]
fn slave_output_reaches_the_master_with_output_processing() {
    let pty = Pty::open(24, 80).expect("pty allocation failed");
    // The slave is in cooked mode: output post-processing translates NL to
    // CRLF on the way to the master.
    nix::unistd::write(pty.slave, b"hi\n").expect("write to slave failed");
    let mut buf = [0u8; 64];
    let n = read_master(pty.master, &mut buf);
    assert_eq!(&buf[..n], b"hi\r\n");
    close_pair(&pty);
}

#[test]
fn master_input_reaches_the_slave_under_cooked_line_rules() {
    let pty = Pty::open(24, 80).expect("pty allocation failed");
    // Input written to the master passes the cooked slave's line discipline:
    // CR is translated to NL on input, and a canonical read returns one line.
    nix::unistd::write(pty.master, b"ab\r\n").expect("write to master failed");
    let mut buf = [0u8; 64];
    let n = read(pty.slave, &mut buf).expect("read from slave failed");
    assert_eq!(&buf[..n], b"ab\n");
    let n2 = read(pty.slave, &mut buf).expect("second read from slave failed");
    assert_eq!(&buf[..n2], b"\n");
    // The cooked slave echoes its input back to the master.
    let mut echo = [0u8; 64];
    let e = read_master(pty.master, &mut echo);
    assert!(e >= 2);
    assert_eq!(&echo[..2], b"ab");
    close_pair(&pty);
}

#[test]
fn zero_geometry_still_allocates() {
    let pty = Pty::open(0, 0).expect("pty allocation with default geometry failed");
    assert!(pty.master >= 0 && pty.slave >= 0);
    assert_eq!(pty.rows, 0);
    assert_eq!(pty.cols, 0);
    close_pair(&pty);
}
