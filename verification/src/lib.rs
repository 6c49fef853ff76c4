//! Pseudo-terminal allocation and duplex terminal relay.
//!
//! A pseudo-terminal (pty) is a matched pair of descriptors: programs attached
//! to the slave side believe they are talking to a real terminal, while the
//! master side lets a controlling program read and write the terminal's data
//! stream.  This library allocates such a pair in known terminal modes (raw
//! master, cooked slave), and provides the verified decision logic of a duplex
//! relay that copies bytes between a local terminal and the pty master,
//! optionally tee-ing the master's output to a log sink.

use vstd::prelude::*;

pub mod modes;
pub mod pty;
pub mod relay;
mod sys;

verus! {

/// Largest number of bytes a relay direction reads in one call.
pub const MAX_CHUNK: usize = 1000;

} // verus!
