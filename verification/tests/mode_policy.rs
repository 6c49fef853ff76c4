//! Tests of the pure terminal mode policy: the cooked and raw
//! transformations on terminal attribute structures.

use pty_relay::modes::{TermAttrs, CC_LEN, COOKED_CFLAGS, COOKED_IFLAGS, COOKED_LFLAGS,
    COOKED_OFLAGS, CS8, ECHO, ICANON, ICRNL, IMAXBEL, ISIG, IXON, OPOST, VEOF, VERASE, VINTR,
    VLNEXT, VMIN, VQUIT, VSTART, VSTOP, VSUSP, VTIME, VWERASE};

fn junk_attrs(fill: u8) -> TermAttrs {
    TermAttrs {
        iflags: 0xffff_ffff,
        oflags: 0xffff_ffff,
        cflags: 0xffff_ffff,
        lflags: 0xffff_ffff,
        cc: vec![fill; CC_LEN],
    }
}

#[test]
fn cooked_sets_canonical_controls() {
    let mut attrs = junk_attrs(0xaa);
    attrs.set_cooked();
    assert_eq!(attrs.cc[VINTR], 0x03);
    assert_eq!(attrs.cc[VQUIT], 0x1c);
    assert_eq!(attrs.cc[VERASE], 0x7f);
    assert_eq!(attrs.cc[VEOF], 0x04);
    assert_eq!(attrs.cc[VSTART], 0x11);
    assert_eq!(attrs.cc[VSTOP], 0x13);
    assert_eq!(attrs.cc[VSUSP], 0x1a);
    assert_eq!(attrs.cc[VWERASE], 0x17);
    assert_eq!(attrs.cc[VLNEXT], 0x16);
}

#[test]
fn cooked_is_independent_of_prior_contents() {
    let mut a = junk_attrs(0x00);
    let mut b = junk_attrs(0xff);
    b.iflags = 0;
    b.oflags = 0x1234;
    a.set_cooked();
    b.set_cooked();
    assert_eq!(a.iflags, b.iflags);
    assert_eq!(a.oflags, b.oflags);
    assert_eq!(a.cflags, b.cflags);
    assert_eq!(a.lflags, b.lflags);
    for i in [VINTR, VQUIT, VERASE, VEOF, VSTART, VSTOP, VSUSP, VWERASE, VLNEXT] {
        assert_eq!(a.cc[i], b.cc[i]);
    }
}

#[test]
fn cooked_flag_groups_are_the_canonical_constants() {
    let mut attrs = junk_attrs(0x55);
    attrs.set_cooked();
    assert_eq!(attrs.iflags, COOKED_IFLAGS);
    assert_eq!(attrs.oflags, COOKED_OFLAGS);
    assert_eq!(attrs.cflags, COOKED_CFLAGS);
    assert_eq!(attrs.lflags, COOKED_LFLAGS);
    assert_ne!(attrs.iflags & ICRNL, 0);
    assert_ne!(attrs.iflags & IXON, 0);
    assert_ne!(attrs.oflags & OPOST, 0);
    assert_ne!(attrs.lflags & (ISIG | ICANON | ECHO), 0);
}

#[test]
fn cooked_keeps_slots_outside_the_special_set() {
    let mut attrs = junk_attrs(0x42);
    attrs.set_cooked();
    // VKILL (index 3) is not part of the cooked policy and must be untouched.
    assert_eq!(attrs.cc[3], 0x42);
    assert_eq!(attrs.cc[CC_LEN - 1], 0x42);
}

#[test]
fn raw_disables_all_processing() {
    let mut attrs = junk_attrs(0x11);
    attrs.set_cooked();
    attrs.set_raw();
    assert_eq!(attrs.iflags & (ICRNL | IXON), 0);
    assert_eq!(attrs.oflags & OPOST, 0);
    assert_eq!(attrs.lflags & (ECHO | ICANON | ISIG), 0);
    assert_eq!(attrs.cflags & CS8, CS8);
    assert_eq!(attrs.cc[VMIN], 1);
    assert_eq!(attrs.cc[VTIME], 0);
}

#[test]
fn raw_is_idempotent() {
    let mut once = junk_attrs(0x77);
    once.set_raw();
    let mut twice = junk_attrs(0x77);
    twice.set_raw();
    twice.set_raw();
    assert_eq!(once.iflags, twice.iflags);
    assert_eq!(once.oflags, twice.oflags);
    assert_eq!(once.cflags, twice.cflags);
    assert_eq!(once.lflags, twice.lflags);
    assert_eq!(once.cc, twice.cc);
}

#[test]
fn raw_keeps_unrelated_bits() {
    let mut attrs = junk_attrs(0x00);
    attrs.iflags = ICRNL | IMAXBEL;  // IMAXBEL is not cleared by raw mode
    attrs.set_raw();
    assert_eq!(attrs.iflags, IMAXBEL);
}
