//! Pty allocation: opening a master/slave pseudo-terminal pair sized to a
//! requested geometry, with the master set non-blocking and in raw mode and
//! the slave put into the canonical cooked mode.

use vstd::prelude::*;

use crate::modes::TermAttrs;
use crate::sys;

verus! {

/// A requested terminal geometry, in character cells.
#[derive(Clone, Copy, Debug, PartialEq, Eq, Structural)]
pub struct WinSize {
    pub rows: u16,
    pub cols: u16,
}

/// The step of pty allocation at which the operating system reported an
/// error.
#[derive(Clone, Copy, Debug, PartialEq, Eq, Structural)]
pub enum AllocStage {
    /// Allocating the master/slave pair itself.
    PtyOpen,
    /// Setting the master descriptor's flags (non-blocking, close-on-exec).
    MasterFlags,
    /// Reading the master's terminal attributes.
    MasterGetAttrs,
    /// Applying the raw-mode attributes to the master.
    MasterSetAttrs,
    /// Reading the slave's terminal attributes.
    SlaveGetAttrs,
    /// Applying the cooked-mode attributes to the slave.
    SlaveSetAttrs,
}

/// A fatal pty allocation error: the step that failed and the underlying OS
/// error code.  By the time it is returned, both descriptors of a partially
/// configured pair have been closed.
#[derive(Clone, Copy, Debug, PartialEq, Eq, Structural)]
pub struct AllocError {
    pub stage: AllocStage,
    pub errno: i32,
}

/// An open pseudo-terminal pair: the master descriptor (non-blocking, raw
/// mode), the slave descriptor (blocking, cooked mode), the geometry the pair
/// was requested with, and the three flags saying which standard streams of a
/// spawned child should be attached to the slave.
#[derive(Debug)]
pub struct Pty {
    pub master: i32,
    pub slave: i32,
    pub rows: u16,
    pub cols: u16,
    pub stdin: bool,
    pub stdout: bool,
    pub stderr: bool,
}

/// The geometry that is requested from the OS: exactly the given size when
/// both dimensions are positive, and none (the OS default) otherwise.
pub fn size_request(rows: u16, cols: u16) -> (r: Option<WinSize>)
    ensures
        (rows > 0 && cols > 0) <==> r is Some,
        r matches Some(w) ==> w.rows == rows && w.cols == cols,
{
    if rows > 0 && cols > 0 {
        Some(WinSize { rows, cols })
    } else {
        None
    }
}

impl Pty {
    /// Open a pseudo-terminal master/slave pair.
    ///
    /// When both `rows` and `cols` are positive, the slave is created with
    /// exactly that geometry; otherwise the OS default geometry is used.  The
    /// master is set non-blocking (and close-on-exec) and transformed into
    /// full raw mode from its current attributes; the slave's attributes are
    /// overwritten with the canonical cooked-mode policy.  Each step's OS
    /// failure is fatal and is reported with its stage and error code, after
    /// both descriptors of the pair have been closed again.
    pub fn open(rows: u16, cols: u16) -> (r: Result<Pty, AllocError>)
        ensures
            r matches Ok(p) ==> {
                &&& p.master >= 0
                &&& p.slave >= 0
                &&& p.master != p.slave
                &&& p.rows == rows
                &&& p.cols == cols
                &&& p.stdin
                &&& p.stdout
                &&& p.stderr
            },
    {
        let size = size_request(rows, cols);
        let (master, slave) = match sys::sys_openpty(size) {
            Ok(fds) => fds,
            Err(e) => {
                return Err(AllocError { stage: AllocStage::PtyOpen, errno: e });
            },
        };

        if let Err(e) = sys::set_master_flags(master) {
            return Err(close_pair(master, slave, AllocStage::MasterFlags, e));
        }

        let mut attrs = match sys::tc_get(master) {
            Ok(t) => t,
            Err(e) => {
                return Err(close_pair(master, slave, AllocStage::MasterGetAttrs, e));
            },
        };
        attrs.set_raw();
        if let Err(e) = sys::tc_set(master, &attrs) {
            return Err(close_pair(master, slave, AllocStage::MasterSetAttrs, e));
        }

        let mut slave_attrs = match sys::tc_get(slave) {
            Ok(t) => t,
            Err(e) => {
                return Err(close_pair(master, slave, AllocStage::SlaveGetAttrs, e));
            },
        };
        slave_attrs.set_cooked();
        if let Err(e) = sys::tc_set(slave, &slave_attrs) {
            return Err(close_pair(master, slave, AllocStage::SlaveSetAttrs, e));
        }

        Ok(Pty { master, slave, rows, cols, stdin: true, stdout: true, stderr: true })
    }
}

/// Close both descriptors of a partially configured pair and build the error
/// that reports the failed step: no descriptor outlives a failed allocation.
fn close_pair(master: i32, slave: i32, stage: AllocStage, errno: i32) -> (r: AllocError)
    ensures
        r.stage == stage,
        r.errno == errno,
{
    sys::sys_close(master);
    sys::sys_close(slave);
    AllocError { stage, errno }
}

} // verus!
