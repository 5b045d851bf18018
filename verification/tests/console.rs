use termctl::attr::Termios;
use termctl::console::{
    console_write_request, get_console_mode, set_console_mode, startup_input_snapshot,
    startup_output_snapshot, input_snapshot, input_word, output_snapshot, output_word, ENABLE_ECHO_INPUT,
    ENABLE_LINE_INPUT, ENABLE_PROCESSED_INPUT, ENABLE_PROCESSED_OUTPUT,
    ENABLE_VIRTUAL_TERMINAL_PROCESSING, ENABLE_WINDOW_INPUT, ENABLE_WRAP_AT_EOL_OUTPUT,
};
use termctl::error::{OsReply, TtyError};
use termctl::device::Platform;
use termctl::flags::{ECHO, ICANON, ISIG};
use termctl::tty::StdStream;
use termctl::tty::{init, set_raw_input_mode};

#[test]
fn input_word_into_snapshot() {
    let s = input_snapshot(ENABLE_PROCESSED_INPUT | ENABLE_LINE_INPUT | ENABLE_ECHO_INPUT);
    assert_eq!(s.c_lflag, ISIG | ICANON | ECHO);
    assert_eq!(s, Termios { c_lflag: 0b1011, ..Termios::default() });
    assert_eq!(input_snapshot(ENABLE_WINDOW_INPUT).c_lflag, 0x4);
    assert_eq!(input_snapshot(0x01f7).c_lflag, 0x01fb);
    assert_eq!(input_snapshot(0).c_lflag, 0);
}

#[test]
fn console_words_round_trip() {
    for word in [0u32, 0x1, 0x2, 0x4, 0x8, 0xc, 0x7, 0x01f7, 0xffff_ffff, 0x8000_0004] {
        assert_eq!(input_word(&input_snapshot(word)), word);
        assert_eq!(output_word(&output_snapshot(word)), word);
        assert_ne!(input_snapshot(word ^ 0x4), input_snapshot(word));
    }
    assert_eq!(output_snapshot(0x7), Termios { c_oflag: 0x7, ..Termios::default() });
}

#[test]
fn console_toggle_flips_line_input_and_echo() {
    let word = 0x01f7;
    let raw = set_raw_input_mode(true, OsReply::Accepted(input_snapshot(word))).unwrap();
    assert_eq!(input_word(&raw.mode), 0x01f1);
    let cooked = set_raw_input_mode(false, OsReply::Accepted(raw.mode)).unwrap();
    assert_eq!(input_word(&cooked.mode), 0x01f7);
    let from_nothing = set_raw_input_mode(false, OsReply::Accepted(input_snapshot(0))).unwrap();
    assert_eq!(input_word(&from_nothing.mode), ENABLE_LINE_INPUT | ENABLE_ECHO_INPUT);
}

#[test]
fn console_session_startup_and_release() {
    let guard = init(
        OsReply::Accepted(output_snapshot(0x0000)),
        OsReply::Accepted(input_snapshot(ENABLE_LINE_INPUT | ENABLE_ECHO_INPUT)),
    );
    assert!(guard.do_cleanup());
    assert_eq!(output_word(&guard.output_mode()), 0x0000);
    assert_eq!(input_word(&guard.input_mode()), 0x0006);
    let startup = guard.startup_requests(Platform::Windows);
    assert_eq!(startup.len(), 2);
    assert_eq!((startup[0].stream, output_word(&startup[0].mode)), (StdStream::OUT, 0x0007));
    assert_eq!((startup[1].stream, input_word(&startup[1].mode)), (StdStream::IN, 0x0003));
    assert!(guard.startup_requests(Platform::Unix).is_empty());
    let restore = guard.release();
    assert_eq!((restore[0].stream, output_word(&restore[0].mode)), (StdStream::OUT, 0x0000));
    assert_eq!((restore[1].stream, input_word(&restore[1].mode)), (StdStream::IN, 0x0006));
}

#[test]
fn console_startup_words() {
    for o in [0x0000u32, 0x0002, 0x0005, 0x0010, 0xffff_fff8, 0xffff_ffff] {
        let asked = startup_output_snapshot(&output_snapshot(o));
        assert_eq!(output_word(&asked), o | 0x0001 | 0x0002 | 0x0004);
    }
    assert_eq!(
        output_word(&startup_output_snapshot(&output_snapshot(0x0010))),
        ENABLE_PROCESSED_OUTPUT | ENABLE_WRAP_AT_EOL_OUTPUT | ENABLE_VIRTUAL_TERMINAL_PROCESSING
            | 0x0010
    );
    for i in [0x0000u32, 0x0004, 0x0006, 0x0007, 0x0008, 0x01f7, 0xffff_ffff] {
        let asked = startup_input_snapshot(&input_snapshot(i));
        assert_eq!(input_word(&asked), (i | 0x0001) & !0x0004);
    }
    let asked = startup_input_snapshot(&input_snapshot(0x01f6));
    assert_eq!(input_word(&asked), 0x01f3);
    assert_eq!(asked.c_lflag & ENABLE_PROCESSED_INPUT, ISIG);
    assert_eq!(asked.c_lflag & ECHO, 0);
}

#[test]
fn console_mode_replies() {
    assert_eq!(get_console_mode(OsReply::Accepted(0x01f7)), Ok(0x01f7));
    assert_eq!(get_console_mode(OsReply::Rejected), Err(TtyError::QueryFailed));
    assert_eq!(get_console_mode(OsReply::InvalidHandle), Err(TtyError::HandleInvalid));
    assert_eq!(set_console_mode(0x01f7, OsReply::Accepted(())), Ok(0x01f7));
    assert_eq!(set_console_mode(0x01f7, OsReply::Rejected), Err(TtyError::ApplyFailed));
    assert_eq!(set_console_mode(0x01f7, OsReply::InvalidHandle), Err(TtyError::HandleInvalid));
}

#[test]
fn console_write_after_a_read() {
    assert_eq!(console_write_request(OsReply::Accepted(0x01f7), 0x0003), Ok((0x01f7, 0x0003)));
    assert_eq!(console_write_request(OsReply::Rejected, 0x0003), Err(TtyError::QueryFailed));
    assert_eq!(
        console_write_request(OsReply::InvalidHandle, 0x0003),
        Err(TtyError::HandleInvalid)
    );
}
