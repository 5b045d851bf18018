//! Console mode words. A console keeps one word of flags for its input and
//! one for its output instead of a termios record; this module carries such
//! a word into a snapshot and back, so that the session and the raw-mode
//! toggle work on a console as they do on a terminal device.
//!
//! The output word goes into the output flags as it is; its bit 0 switches
//! output processing, where the output flags have post-processing. The input
//! word goes into the local flags with two places exchanged, so that echo
//! stands where the local flags have it; signal keys and line input already
//! do.

use vstd::prelude::*;
use crate::attr::{Mode, Termios};
use crate::error::{query_error, OsReply, TtyError};
use crate::flags::{clear_bits, set_bits, CANONICAL_ECHO_GROUP, ECHO, ISIG};

verus! {

/// Input word: control keys are handled by the system and raise signals.
pub const ENABLE_PROCESSED_INPUT: u32 = 0x0001;

/// Input word: a read returns when a line is complete.
pub const ENABLE_LINE_INPUT: u32 = 0x0002;

/// Input word: typed characters are echoed.
pub const ENABLE_ECHO_INPUT: u32 = 0x0004;

/// Input word: changes of the window size are reported as input.
pub const ENABLE_WINDOW_INPUT: u32 = 0x0008;

/// Output word: control characters written are acted upon.
pub const ENABLE_PROCESSED_OUTPUT: u32 = 0x0001;

/// Output word: the cursor moves to the next row at the end of a row.
pub const ENABLE_WRAP_AT_EOL_OUTPUT: u32 = 0x0002;

/// Output word: escape sequences written are acted upon.
pub const ENABLE_VIRTUAL_TERMINAL_PROCESSING: u32 = 0x0004;

/// The bits of the output word that a session switches on when it starts.
pub const STARTUP_OUTPUT_SET: u32 = ENABLE_PROCESSED_OUTPUT | ENABLE_WRAP_AT_EOL_OUTPUT
    | ENABLE_VIRTUAL_TERMINAL_PROCESSING;

/// `word` with bit 2 and bit 3 exchanged and every other bit in its place.
pub open spec fn exchanged(word: u32) -> u32 {
    (word & !0xcu32) | ((word & 0x4u32) << 1u32) | ((word & 0x8u32) >> 1u32)
}

/// The snapshot that stands for an input word.
pub open spec fn input_mode(word: u32) -> Mode {
    Mode { lflag: exchanged(word), ..Mode::blank() }
}

/// The snapshot that stands for an output word.
pub open spec fn output_mode(word: u32) -> Mode {
    Mode { oflag: word, ..Mode::blank() }
}

/// The output word that a session asks for when it starts on a console
/// whose output word is `word`: output processing, wrapping at the end of a
/// row and escape-sequence processing on, every other bit as it is.
pub open spec fn startup_output_word(word: u32) -> u32 {
    word | STARTUP_OUTPUT_SET
}

/// The input word that a session asks for when it starts on a console whose
/// input word is `word`: signal keys on, echo off, every other bit as it is.
pub open spec fn startup_input_word(word: u32) -> u32 {
    (word | ENABLE_PROCESSED_INPUT) & !ENABLE_ECHO_INPUT
}

/// The snapshot of a console's output that a session asks for when it
/// starts.
pub open spec fn startup_output(mode: Mode) -> Mode {
    Mode { oflag: startup_output_word(mode.oflag), ..mode }
}

/// The snapshot of a console's input that a session asks for when it starts.
pub open spec fn startup_input(mode: Mode) -> Mode {
    Mode { lflag: exchanged(startup_input_word(exchanged(mode.lflag))), ..mode }
}

fn exchange(word: u32) -> (out: u32)
    ensures
        out == exchanged(word),
{
    (word & !0xcu32) | ((word & 0x4u32) << 1u32) | ((word & 0x8u32) >> 1u32)
}

/// Carries an input word into a snapshot.
pub fn input_snapshot(word: u32) -> (out: Termios)
    ensures
        out@ == input_mode(word),
{
    let out = Termios {
        c_iflag: 0,
        c_oflag: 0,
        c_cflag: 0,
        c_lflag: exchange(word),
        c_cc: [0u8; 32],
    };
    assert(out@.cc =~= Mode::blank().cc);
    out
}

/// The input word that a snapshot stands for.
pub fn input_word(snapshot: &Termios) -> (word: u32)
    ensures
        word == exchanged(snapshot@.lflag),
{
    exchange(snapshot.c_lflag)
}

/// Carries an output word into a snapshot.
pub fn output_snapshot(word: u32) -> (out: Termios)
    ensures
        out@ == output_mode(word),
{
    let out = Termios { c_iflag: 0, c_oflag: word, c_cflag: 0, c_lflag: 0, c_cc: [0u8; 32] };
    assert(out@.cc =~= Mode::blank().cc);
    out
}

/// The output word that a snapshot stands for.
pub fn output_word(snapshot: &Termios) -> (word: u32)
    ensures
        word == snapshot@.oflag,
{
    snapshot.c_oflag
}

/// Derives the snapshot of a console's output that a session asks for when
/// it starts.
pub fn startup_output_snapshot(snapshot: &Termios) -> (out: Termios)
    ensures
        out@ == startup_output(snapshot@),
{
    Termios {
        c_iflag: snapshot.c_iflag,
        c_oflag: set_bits(snapshot.c_oflag, STARTUP_OUTPUT_SET),
        c_cflag: snapshot.c_cflag,
        c_lflag: snapshot.c_lflag,
        c_cc: snapshot.c_cc,
    }
}

/// Derives the snapshot of a console's input that a session asks for when it
/// starts.
pub fn startup_input_snapshot(snapshot: &Termios) -> (out: Termios)
    ensures
        out@ == startup_input(snapshot@),
{
    let word = input_word(snapshot);
    let asked = clear_bits(set_bits(word, ENABLE_PROCESSED_INPUT), ENABLE_ECHO_INPUT);
    Termios {
        c_iflag: snapshot.c_iflag,
        c_oflag: snapshot.c_oflag,
        c_cflag: snapshot.c_cflag,
        c_lflag: exchange(asked),
        c_cc: snapshot.c_cc,
    }
}

/// Reads the answer to a query for a mode word.
pub fn get_console_mode(reply: OsReply<u32>) -> (out: Result<u32, TtyError>)
    ensures
        reply is Accepted ==> out == Ok::<u32, TtyError>(reply->Accepted_0),
        reply is Rejected ==> out == Err::<u32, TtyError>(TtyError::QueryFailed),
        reply is InvalidHandle ==> out == Err::<u32, TtyError>(TtyError::HandleInvalid),
{
    match reply {
        OsReply::Accepted(word) => Ok(word),
        OsReply::Rejected => Err(TtyError::QueryFailed),
        OsReply::InvalidHandle => Err(TtyError::HandleInvalid),
    }
}

/// The first half of installing a mode word, from the answer to the query
/// for the word that is there: the pair of that word and the word to
/// write, or the error of the query, in which case nothing is to be written.
pub fn console_write_request(read: OsReply<u32>, new_mode: u32) -> (out: Result<
    (u32, u32),
    TtyError,
>)
    ensures
        out is Ok <==> read is Accepted,
        out matches Ok(pair) ==> pair.0 == read->Accepted_0 && pair.1 == new_mode,
        out matches Err(e) ==> Some(e) == query_error(read),
{
    match read {
        OsReply::Accepted(previous) => Ok((previous, new_mode)),
        OsReply::Rejected => Err(TtyError::QueryFailed),
        OsReply::InvalidHandle => Err(TtyError::HandleInvalid),
    }
}

/// The second half of installing a mode word, from the answer to the
/// write: on success the word that was there before.
pub fn set_console_mode(previous: u32, reply: OsReply<()>) -> (out: Result<u32, TtyError>)
    ensures
        reply is Accepted ==> out == Ok::<u32, TtyError>(previous),
        reply is Rejected ==> out == Err::<u32, TtyError>(TtyError::ApplyFailed),
        reply is InvalidHandle ==> out == Err::<u32, TtyError>(TtyError::HandleInvalid),
{
    match reply {
        OsReply::Accepted(_) => Ok(previous),
        OsReply::Rejected => Err(TtyError::ApplyFailed),
        OsReply::InvalidHandle => Err(TtyError::HandleInvalid),
    }
}

/// A word carried into a snapshot and back is the same word, and so is a
/// snapshot's word carried there and back.
pub proof fn lemma_console_round_trip(word: u32)
    ensures
        exchanged(exchanged(word)) == word,
        exchanged(input_mode(word).lflag) == word,
        output_mode(word).oflag == word,
{
    assert(exchanged(exchanged(word)) == word) by (bit_vector);
}

/// On a console, switching raw input on clears line input and echo, and
/// switching it off sets them; no other bit of the input word changes.
pub proof fn lemma_console_toggle(word: u32, enable: bool)
    ensures
        exchanged(input_mode(word).raw_input(enable).lflag) == (if enable {
            word & !(ENABLE_LINE_INPUT | ENABLE_ECHO_INPUT)
        } else {
            word | (ENABLE_LINE_INPUT | ENABLE_ECHO_INPUT)
        }),
{
    assert(exchanged(exchanged(word) & !CANONICAL_ECHO_GROUP) == word & !(ENABLE_LINE_INPUT
        | ENABLE_ECHO_INPUT)) by (bit_vector);
    assert(exchanged(exchanged(word) | CANONICAL_ECHO_GROUP) == word | (ENABLE_LINE_INPUT
        | ENABLE_ECHO_INPUT)) by (bit_vector);
}

/// On a console, the words that a session asks for when it starts are the
/// output word with output processing, wrapping and escape-sequence
/// processing switched on, and the input word with signal keys switched on
/// and echo switched off. In a snapshot's local flags that is the signal
/// flag set and the echo flag cleared.
pub proof fn lemma_console_startup(out_word: u32, in_word: u32)
    ensures
        startup_output(output_mode(out_word)).oflag == out_word | 0x0001u32 | 0x0002u32
            | 0x0004u32,
        exchanged(startup_input(input_mode(in_word)).lflag) == (in_word | 0x0001u32)
            & !0x0004u32,
        forall|mode: Mode| #[trigger] startup_input(mode).lflag == (mode.lflag | ISIG) & !ECHO,
{
    assert(out_word | STARTUP_OUTPUT_SET == out_word | 0x0001u32 | 0x0002u32 | 0x0004u32)
        by (bit_vector);
    assert(exchanged(exchanged(startup_input_word(exchanged(exchanged(in_word))))) == (in_word
        | 0x0001u32) & !0x0004u32) by (bit_vector);
    assert forall|mode: Mode| #[trigger] startup_input(mode).lflag == (mode.lflag | ISIG)
        & !ECHO by {
        let l = mode.lflag;
        assert(exchanged(startup_input_word(exchanged(l))) == (l | ISIG) & !ECHO)
            by (bit_vector);
    }
}

} // verus!
