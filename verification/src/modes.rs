//! Terminal mode policy: the pure configuration logic that computes the
//! raw-mode bit pattern applied to the pty master and the cooked-mode bit
//! pattern applied to the pty slave.
//!
//! A terminal attribute structure is modeled by [`TermAttrs`]: the four flag
//! groups as plain bit masks and the control-character table as a byte vector
//! in the platform's index layout.  The two canonical transformations are
//! [`TermAttrs::set_raw`] (no input/output/line processing, 8-bit clean,
//! byte-at-a-time reads) and [`TermAttrs::set_cooked`] (line-buffered,
//! echoing, signal-generating, with the POSIX default control characters).

use vstd::prelude::*;

verus! {

// Input flag bits.
pub const IGNBRK: u32 = 0x1;
pub const BRKINT: u32 = 0x2;
pub const PARMRK: u32 = 0x8;
pub const ISTRIP: u32 = 0x20;
pub const INLCR: u32 = 0x40;
pub const IGNCR: u32 = 0x80;
pub const ICRNL: u32 = 0x100;
pub const IXON: u32 = 0x400;
pub const IXANY: u32 = 0x800;
pub const IMAXBEL: u32 = 0x2000;
pub const IUTF8: u32 = 0x4000;

// Output flag bits.
pub const OPOST: u32 = 0x1;
pub const ONLCR: u32 = 0x4;

// Control flag bits.
pub const CSIZE: u32 = 0x30;
pub const CS8: u32 = 0x30;
pub const CREAD: u32 = 0x80;
pub const PARENB: u32 = 0x100;

// Local flag bits.
pub const ISIG: u32 = 0x1;
pub const ICANON: u32 = 0x2;
pub const ECHO: u32 = 0x8;
pub const ECHOE: u32 = 0x10;
pub const ECHOK: u32 = 0x20;
pub const ECHONL: u32 = 0x40;
pub const ECHOCTL: u32 = 0x200;
pub const ECHOKE: u32 = 0x800;
pub const IEXTEN: u32 = 0x8000;

// Indices into the control-character table.
pub const VINTR: usize = 0;
pub const VQUIT: usize = 1;
pub const VERASE: usize = 2;
pub const VEOF: usize = 4;
pub const VTIME: usize = 5;
pub const VMIN: usize = 6;
pub const VSTART: usize = 8;
pub const VSTOP: usize = 9;
pub const VSUSP: usize = 10;
pub const VWERASE: usize = 14;
pub const VLNEXT: usize = 15;

/// Number of entries in the control-character table.
pub const CC_LEN: usize = 32;

/// A terminal attribute structure, as plain values: four flag groups and the
/// control-character table.
pub struct TermAttrs {
    pub iflags: u32,
    pub oflags: u32,
    pub cflags: u32,
    pub lflags: u32,
    pub cc: Vec<u8>,
}

impl TermAttrs {
    /// The control-character table always has the full platform length.
    pub open spec fn well_formed(self) -> bool {
        self.cc@.len() == CC_LEN
    }
}

// --- Cooked mode -----------------------------------------------------------

/// Cooked input flags: CR-to-NL translation, flow control restartable by any
/// character, bell on input overflow, UTF-8 aware input.
pub const COOKED_IFLAGS: u32 = ICRNL | IXON | IXANY | IMAXBEL | IUTF8;

/// Cooked output flags: output post-processing with NL-to-CRLF translation
/// (all delay fields zero, i.e. no delays).
pub const COOKED_OFLAGS: u32 = OPOST | ONLCR;

/// Cooked control flags: 8-bit characters, receiver enabled.
pub const COOKED_CFLAGS: u32 = CS8 | CREAD;

/// Cooked local flags: signal generation, canonical (line) input, extended
/// input processing, and full echo behaviour.
pub const COOKED_LFLAGS: u32 = ISIG | ICANON | IEXTEN | ECHO | ECHOE | ECHOK | ECHOCTL
    | ECHOKE;

/// The cooked-mode control-character table: the POSIX default special
/// characters written over the given table; every other slot is kept.
pub open spec fn cooked_cc(cc: Seq<u8>) -> Seq<u8> {
    cc.update(VINTR as int, 0x03).update(VQUIT as int, 0x1c).update(VERASE as int, 0x7f)
        .update(VEOF as int, 0x04).update(VSTART as int, 0x11).update(VSTOP as int, 0x13)
        .update(VSUSP as int, 0x1a).update(VWERASE as int, 0x17).update(VLNEXT as int, 0x16)
}

// --- Raw mode --------------------------------------------------------------

/// Raw input flags: break, parity-mark, strip, CR/NL translation and output
/// flow control are all disabled; other input bits are kept.
pub open spec fn raw_iflags(f: u32) -> u32 {
    f & !(IGNBRK | BRKINT | PARMRK | ISTRIP | INLCR | IGNCR | ICRNL | IXON)
}

/// Raw output flags: output post-processing is disabled; other bits are kept.
pub open spec fn raw_oflags(f: u32) -> u32 {
    f & !OPOST
}

/// Raw control flags: parity is disabled and the character size is forced to
/// 8 bits; other bits are kept.
pub open spec fn raw_cflags(f: u32) -> u32 {
    (f & !(CSIZE | PARENB)) | CS8
}

/// Raw local flags: echo, canonical input, signal generation and extended
/// processing are all disabled; other bits are kept.
pub open spec fn raw_lflags(f: u32) -> u32 {
    f & !(ECHO | ECHONL | ICANON | ISIG | IEXTEN)
}

/// The raw-mode control-character table: reads return after one byte with no
/// inter-character timeout; every other slot is kept.
pub open spec fn raw_cc(cc: Seq<u8>) -> Seq<u8> {
    cc.update(VMIN as int, 1).update(VTIME as int, 0)
}

impl TermAttrs {
    /// Overwrite the attributes with the canonical cooked-mode policy.
    ///
    /// Every flag group becomes the cooked constant and the special control
    /// characters take their POSIX defaults, regardless of the structure's
    /// prior contents; control-character slots outside the special set are
    /// kept as they were.
    pub fn set_cooked(&mut self)
        requires
            old(self).well_formed(),
        ensures
            final(self).well_formed(),
            final(self).iflags == COOKED_IFLAGS,
            final(self).oflags == COOKED_OFLAGS,
            final(self).cflags == COOKED_CFLAGS,
            final(self).lflags == COOKED_LFLAGS,
            final(self).cc@ == cooked_cc(old(self).cc@),
    {
        self.cc[VINTR] = 0x03;
        self.cc[VQUIT] = 0x1c;
        self.cc[VERASE] = 0x7f;
        self.cc[VEOF] = 0x04;
        self.cc[VSTART] = 0x11;
        self.cc[VSTOP] = 0x13;
        self.cc[VSUSP] = 0x1a;
        self.cc[VWERASE] = 0x17;
        self.cc[VLNEXT] = 0x16;
        self.iflags = COOKED_IFLAGS;
        self.oflags = COOKED_OFLAGS;
        self.cflags = COOKED_CFLAGS;
        self.lflags = COOKED_LFLAGS;
    }

    /// Transform the attributes into full raw mode: no input or output
    /// processing, no line editing, no echo, 8-bit clean, and reads that
    /// deliver each byte as it arrives.
    pub fn set_raw(&mut self)
        requires
            old(self).well_formed(),
        ensures
            final(self).well_formed(),
            final(self).iflags == raw_iflags(old(self).iflags),
            final(self).oflags == raw_oflags(old(self).oflags),
            final(self).cflags == raw_cflags(old(self).cflags),
            final(self).lflags == raw_lflags(old(self).lflags),
            final(self).cc@ == raw_cc(old(self).cc@),
    {
        self.iflags = self.iflags & !(IGNBRK | BRKINT | PARMRK | ISTRIP | INLCR | IGNCR
            | ICRNL | IXON);
        self.oflags = self.oflags & !OPOST;
        self.cflags = (self.cflags & !(CSIZE | PARENB)) | CS8;
        self.lflags = self.lflags & !(ECHO | ECHONL | ICANON | ISIG | IEXTEN);
        self.cc[VMIN] = 1;
        self.cc[VTIME] = 0;
    }
}

/// Law: the raw-mode transformation is idempotent.  Applying it to the result
/// of a previous application changes nothing, on every flag group and on the
/// control-character table.
pub proof fn lemma_raw_idempotent(iflags: u32, oflags: u32, cflags: u32, lflags: u32, cc: Seq<u8>)
    requires
        cc.len() == CC_LEN,
    ensures
        raw_iflags(raw_iflags(iflags)) == raw_iflags(iflags),
        raw_oflags(raw_oflags(oflags)) == raw_oflags(oflags),
        raw_cflags(raw_cflags(cflags)) == raw_cflags(cflags),
        raw_lflags(raw_lflags(lflags)) == raw_lflags(lflags),
        raw_cc(raw_cc(cc)) == raw_cc(cc),
{
    assert(raw_iflags(raw_iflags(iflags)) == raw_iflags(iflags)) by (bit_vector);
    assert(raw_oflags(raw_oflags(oflags)) == raw_oflags(oflags)) by (bit_vector);
    assert(raw_cflags(raw_cflags(cflags)) == raw_cflags(cflags)) by (bit_vector);
    assert(raw_lflags(raw_lflags(lflags)) == raw_lflags(lflags)) by (bit_vector);
    assert(raw_cc(raw_cc(cc)) =~= raw_cc(cc));
}

/// Law: the cooked-mode table carries the canonical control characters,
/// whatever the table held before, and leaves its length unchanged.
pub proof fn lemma_cooked_controls(cc: Seq<u8>)
    requires
        cc.len() == CC_LEN,
    ensures
        cooked_cc(cc).len() == cc.len(),
        cooked_cc(cc)[VINTR as int] == 0x03,
        cooked_cc(cc)[VQUIT as int] == 0x1c,
        cooked_cc(cc)[VERASE as int] == 0x7f,
        cooked_cc(cc)[VEOF as int] == 0x04,
        cooked_cc(cc)[VSTART as int] == 0x11,
        cooked_cc(cc)[VSTOP as int] == 0x13,
        cooked_cc(cc)[VSUSP as int] == 0x1a,
        cooked_cc(cc)[VWERASE as int] == 0x17,
        cooked_cc(cc)[VLNEXT as int] == 0x16,
{
}

} // verus!
