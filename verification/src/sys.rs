//! Trusted boundary to the operating system's pty facility, through the nix
//! crate.  Each function here wraps one system call; its body converts between
//! the library's plain-value types and nix's types, and its contract states
//! only what the nix source shows of every outcome.  Errors are handed back as
//! the raw OS error code.

use vstd::prelude::*;

use crate::modes::TermAttrs;
use crate::pty::WinSize;
use nix::sys::termios::{ControlFlags, InputFlags, LocalFlags, OutputFlags, SetArg};

verus! {

/// Relies on nix::pty::openpty: on success the OS hands back a freshly
/// allocated master/slave descriptor pair (two distinct, valid descriptors);
/// when a geometry is given, it is installed as the slave's initial window
/// size.  On failure the OS error code is returned.
#[verifier::external_body]
pub(crate) fn sys_openpty(size: Option<WinSize>) -> (r: Result<(i32, i32), i32>)
    ensures
        r matches Ok(fds) ==> fds.0 >= 0 && fds.1 >= 0 && fds.0 != fds.1,
{
    let ws = size.map(|s| nix::pty::Winsize {
        ws_row: s.rows,
        ws_col: s.cols,
        ws_xpixel: 0,
        ws_ypixel: 0,
    });
    match nix::pty::openpty(ws.as_ref(), None) {
        Ok(nix::pty::OpenptyResult { master, slave }) => Ok((master, slave)),
        Err(e) => Err(e as i32),
    }
}

/// Relies on nix::fcntl::fcntl, called twice: F_SETFL replaces the
/// descriptor's file status flags with non-blocking mode, and F_SETFD sets
/// the close-on-exec flag (an fd flag, which F_SETFL cannot set), so the
/// descriptor does not leak into spawned children.  On failure the OS error
/// code of the failing call is returned.
#[verifier::external_body]
pub(crate) fn set_master_flags(fd: i32) -> (r: Result<(), i32>) {
    if let Err(e) = nix::fcntl::fcntl(fd, nix::fcntl::FcntlArg::F_SETFL(
        nix::fcntl::OFlag::O_NONBLOCK,
    )) {
        return Err(e as i32);
    }
    match nix::fcntl::fcntl(fd, nix::fcntl::FcntlArg::F_SETFD(nix::fcntl::FdFlag::FD_CLOEXEC)) {
        Ok(_) => Ok(()),
        Err(e) => Err(e as i32),
    }
}

/// Relies on nix::sys::termios::tcgetattr: reads the descriptor's current
/// terminal attributes.  The four flag groups are returned as their raw bits
/// and the control-character table verbatim, in the platform's index layout;
/// on this target the table has the full 32-entry length.
#[verifier::external_body]
pub(crate) fn tc_get(fd: i32) -> (r: Result<TermAttrs, i32>)
    ensures
        r matches Ok(t) ==> t.well_formed(),
{
    match nix::sys::termios::tcgetattr(fd) {
        Ok(t) => Ok(TermAttrs {
            iflags: t.input_flags.bits(),
            oflags: t.output_flags.bits(),
            cflags: t.control_flags.bits(),
            lflags: t.local_flags.bits(),
            cc: t.control_chars.to_vec(),
        }),
        Err(e) => Err(e as i32),
    }
}

/// Relies on nix::sys::termios::tcgetattr and tcsetattr: reads the current
/// attribute structure, overwrites every modeled field (the four flag groups
/// and the whole control-character table) from `a`, and applies the result at
/// once (TCSANOW).  Nothing is promised of the descriptor's resulting state:
/// tcsetattr reports success if any of the attributes could be set.
#[verifier::external_body]
pub(crate) fn tc_set(fd: i32, a: &TermAttrs) -> (r: Result<(), i32>)
    requires
        a.well_formed(),
{
    let mut t = match nix::sys::termios::tcgetattr(fd) {
        Ok(t) => t,
        Err(e) => return Err(e as i32),
    };
    t.input_flags = InputFlags::from_bits_truncate(a.iflags);
    t.output_flags = OutputFlags::from_bits_truncate(a.oflags);
    t.control_flags = ControlFlags::from_bits_truncate(a.cflags);
    t.local_flags = LocalFlags::from_bits_truncate(a.lflags);
    t.control_chars.copy_from_slice(&a.cc);
    match nix::sys::termios::tcsetattr(fd, SetArg::TCSANOW, &t) {
        Ok(()) => Ok(()),
        Err(e) => Err(e as i32),
    }
}

/// Relies on nix::unistd::close: releases the descriptor.  Used only for
/// best-effort cleanup on a failed allocation, so a close error is dropped.
#[verifier::external_body]
pub(crate) fn sys_close(fd: i32) {
    let _ = nix::unistd::close(fd);
}

} // verus!
