use termctl::attr::{get_terminal_attr, raw_terminal_attr, set_terminal_attr, Termios};
use termctl::error::{OsReply, TtyError};
use termctl::flags::{
    clear_bits, set_bits, CANONICAL_ECHO_GROUP, ECHO, ICANON, ISIG, OPOST, RAW_INPUT_MASK,
    RAW_LOCAL_MASK, RAW_OUTPUT_MASK, VMIN, VTIME,
};
use termctl::sim::{Stream, VirtualTerminal};
use termctl::size::WindowRect;
use termctl::tty::StdStream;

fn snapshot(iflag: u32, oflag: u32, cflag: u32, lflag: u32) -> Termios {
    let mut cc = [0u8; 32];
    for (i, c) in cc.iter_mut().enumerate() {
        *c = (i as u8) + 100;
    }
    Termios { c_iflag: iflag, c_oflag: oflag, c_cflag: cflag, c_lflag: lflag, c_cc: cc }
}

fn window() -> WindowRect {
    WindowRect { left: 0, top: 0, right: 79, bottom: 24 }
}

#[test]
fn masks_have_their_bits() {
    assert_eq!(RAW_INPUT_MASK, 0x05eb);
    assert_eq!(RAW_OUTPUT_MASK, 0x0001);
    assert_eq!(RAW_LOCAL_MASK, 0b1011);
    assert_eq!(CANONICAL_ECHO_GROUP, 0b1010);
    assert_eq!(ISIG, 1 << 0);
    assert_eq!(ICANON, 1 << 1);
    assert_eq!(ECHO, 1 << 3);
    assert_eq!(VMIN, 6);
    assert_eq!(VTIME, 5);
}

#[test]
fn clear_and_set_bits() {
    assert_eq!(clear_bits(0b1011, 0b1010), 0b0001);
    assert_eq!(clear_bits(0xffff_ffff, 0x05eb), 0xffff_fa14);
    assert_eq!(clear_bits(0, 0xffff_ffff), 0);
    assert_eq!(set_bits(0b0001, 0b1010), 0b1011);
    assert_eq!(set_bits(0xffff_0000, 0x0000_00ff), 0xffff_00ff);
}

#[test]
fn stub_provider_input_mode_with_bits_one_and_three_cleared() {
    let mut term = VirtualTerminal {
        input: Stream::Terminal(Termios { c_lflag: 0b1011, ..Termios::default() }),
        output: Stream::File,
        window: window(),
    };
    let captured = term.capture(StdStream::IN).unwrap();
    assert_eq!(captured.c_lflag, 0b1011);
    assert_eq!(clear_bits(captured.c_lflag, (1 << 1) | (1 << 3)), 0b0001);
    assert_eq!(captured.with_raw_input(true).c_lflag, 0b0001);
    assert!(term.set_raw_input_mode(true));
    assert_eq!(term.capture(StdStream::IN).unwrap().c_lflag, 0b0001);
    assert_eq!(captured.c_lflag, 0b1011);
}

#[test]
fn stub_provider_input_mode_made_raw() {
    let term = VirtualTerminal {
        input: Stream::Terminal(Termios { c_lflag: 0b1011, ..Termios::default() }),
        output: Stream::File,
        window: window(),
    };
    let captured = term.capture(StdStream::IN).unwrap();
    let raw = captured.make_raw();
    assert_eq!(raw.c_lflag, 0b0000);
    assert_eq!(captured.c_lflag, 0b1011);
}

#[test]
fn make_raw_clears_the_masks_and_pins_the_read() {
    let s = snapshot(0xffff_ffff, 0xffff_ffff, 0x1234_5678, 0xffff_ffff);
    let raw = s.make_raw();
    assert_eq!(raw.c_iflag, 0xffff_fa14);
    assert_eq!(raw.c_oflag, 0xffff_fffe);
    assert_eq!(raw.c_cflag, 0x1234_5678);
    assert_eq!(raw.c_lflag, 0xffff_fff4);
    for i in 0..32 {
        let expected = if i == 6 { 1 } else if i == 5 { 0 } else { (i as u8) + 100 };
        assert_eq!(raw.c_cc[i], expected);
    }
}

#[test]
fn make_raw_clears_signal_keys_line_buffering_and_echo() {
    let s = snapshot(0, OPOST, 0, ISIG | ICANON | ECHO);
    let raw = s.make_raw();
    assert_eq!(raw.c_lflag, 0);
    assert_eq!(raw.c_oflag, 0);
    for flag in [ISIG, ICANON, ECHO] {
        let one = snapshot(0, 0, 0, flag | 0x0100);
        assert_eq!(one.make_raw().c_lflag, 0x0100);
    }
}

#[test]
fn make_raw_is_idempotent() {
    for s in [
        snapshot(0, 0, 0, 0),
        snapshot(0xffff_ffff, 0xffff_ffff, 0xffff_ffff, 0xffff_ffff),
        snapshot(0x0500, 0x0005, 0x00bf, 0x8a3b),
    ] {
        let once = s.make_raw();
        let twice = once.make_raw();
        assert_eq!(once, twice);
    }
}

#[test]
fn raw_terminal_attr_matches_make_raw() {
    let s = snapshot(0x0500, 0x0005, 0x00bf, 0x8a3b);
    let mut t = s;
    raw_terminal_attr(&mut t);
    assert_eq!(t, s.make_raw());
    assert_eq!(t.c_iflag, 0x0000);
    assert_eq!(t.c_oflag, 0x0004);
    assert_eq!(t.c_lflag, 0x8a30);
}

#[test]
fn default_snapshot_is_blank() {
    let d = Termios::default();
    assert_eq!(d.c_iflag, 0);
    assert_eq!(d.c_oflag, 0);
    assert_eq!(d.c_cflag, 0);
    assert_eq!(d.c_lflag, 0);
    assert_eq!(d.c_cc, [0u8; 32]);
}

#[test]
fn with_raw_input_flips_only_the_group() {
    let s = snapshot(0x0500, 0x0005, 0x00bf, 0x8a3b);
    let raw = s.with_raw_input(true);
    assert_eq!(raw.c_lflag, 0x8a31);
    assert_eq!(raw.c_iflag, s.c_iflag);
    assert_eq!(raw.c_oflag, s.c_oflag);
    assert_eq!(raw.c_cflag, s.c_cflag);
    assert_eq!(raw.c_cc, s.c_cc);
    let cooked = raw.with_raw_input(false);
    assert_eq!(cooked.c_lflag, 0x8a3b);
    assert_eq!(raw.with_raw_input(true), raw);
    assert_eq!(cooked.with_raw_input(false), cooked);
}

#[test]
fn get_terminal_attr_reads_each_reply() {
    let s = snapshot(1, 2, 3, 4);
    assert_eq!(get_terminal_attr(OsReply::Accepted(s)), Ok(s));
    assert_eq!(get_terminal_attr(OsReply::Rejected), Err(TtyError::QueryFailed));
    assert_eq!(get_terminal_attr(OsReply::InvalidHandle), Err(TtyError::HandleInvalid));
}

#[test]
fn set_terminal_attr_reads_each_reply() {
    assert_eq!(set_terminal_attr(OsReply::Accepted(())), Ok(()));
    assert_eq!(set_terminal_attr(OsReply::Rejected), Err(TtyError::ApplyFailed));
    assert_eq!(set_terminal_attr(OsReply::InvalidHandle), Err(TtyError::HandleInvalid));
}

#[test]
fn apply_of_capture_changes_nothing() {
    let mut term = VirtualTerminal {
        input: Stream::Terminal(snapshot(0x0500, 0x0005, 0x00bf, 0x8a3b)),
        output: Stream::Terminal(snapshot(1, 2, 3, 4)),
        window: window(),
    };
    let before = term;
    for which in [StdStream::IN, StdStream::OUT] {
        let captured = term.capture(which).unwrap();
        assert_eq!(term.apply(which, &captured), Ok(()));
        assert_eq!(term, before);
    }
}

#[test]
fn apply_fails_off_a_terminal() {
    let mut term = VirtualTerminal { input: Stream::File, output: Stream::Closed, window: window() };
    let before = term;
    let s = snapshot(1, 2, 3, 4);
    assert_eq!(term.capture(StdStream::IN), Err(TtyError::QueryFailed));
    assert_eq!(term.capture(StdStream::OUT), Err(TtyError::HandleInvalid));
    assert_eq!(term.apply(StdStream::IN, &s), Err(TtyError::ApplyFailed));
    assert_eq!(term.apply(StdStream::OUT, &s), Err(TtyError::HandleInvalid));
    assert_eq!(term, before);
}

#[test]
fn error_messages() {
    assert_eq!(TtyError::NotATerminal.message(), "no controlling terminal");
    assert_eq!(TtyError::QueryFailed.message(), "the terminal could not be queried");
    assert_eq!(TtyError::ApplyFailed.message(), "the terminal mode could not be set");
    assert_eq!(TtyError::HandleInvalid.message(), "the stream has no valid handle");
}
