//! The attribute snapshot: the full mode of one terminal stream at one
//! moment, and the modes derived from it.

use vstd::prelude::*;
use crate::error::{OsReply, TtyError};
use crate::flags::{
    clear_bits, set_bits, with, without, CANONICAL_ECHO_GROUP, NCCS, RAW_INPUT_MASK,
    RAW_LOCAL_MASK, RAW_OUTPUT_MASK, VMIN, VTIME,
};

verus! {

/// The mode of one terminal stream: four flag words and the control
/// characters.
#[derive(Clone, Copy, Debug, PartialEq, Eq)]
pub struct Termios {
    pub c_iflag: u32,
    pub c_oflag: u32,
    pub c_cflag: u32,
    pub c_lflag: u32,
    pub c_cc: [u8; 32],
}

/// A snapshot as a mathematical value.
pub ghost struct Mode {
    pub iflag: u32,
    pub oflag: u32,
    pub cflag: u32,
    pub lflag: u32,
    pub cc: Seq<u8>,
}

impl View for Termios {
    type V = Mode;

    open spec fn view(&self) -> Mode {
        Mode {
            iflag: self.c_iflag,
            oflag: self.c_oflag,
            cflag: self.c_cflag,
            lflag: self.c_lflag,
            cc: self.c_cc@,
        }
    }
}

impl Mode {
    /// Has the number of control characters that every snapshot has.
    pub open spec fn wf(self) -> bool {
        self.cc.len() == NCCS
    }

    /// The mode with all flags clear and all control characters zero.
    pub open spec fn blank() -> Mode {
        Mode { iflag: 0, oflag: 0, cflag: 0, lflag: 0, cc: Seq::new(NCCS as nat, |i: int| 0u8) }
    }

    /// The raw variant: input translation and flow control off, output
    /// post-processing off, signal keys, line buffering and echo off, and a
    /// read that returns as soon as one byte is there. The control flags and
    /// all other bits stay.
    pub open spec fn raw(self) -> Mode {
        Mode {
            iflag: without(self.iflag, RAW_INPUT_MASK),
            oflag: without(self.oflag, RAW_OUTPUT_MASK),
            cflag: self.cflag,
            lflag: without(self.lflag, RAW_LOCAL_MASK),
            cc: self.cc.update(VMIN as int, 1u8).update(VTIME as int, 0u8),
        }
    }

    /// The mode with the canonical/echo group cleared (`enable`) or set, and
    /// nothing else touched.
    pub open spec fn raw_input(self, enable: bool) -> Mode {
        Mode {
            lflag: if enable {
                without(self.lflag, CANONICAL_ECHO_GROUP)
            } else {
                with(self.lflag, CANONICAL_ECHO_GROUP)
            },
            ..self
        }
    }
}

impl Default for Termios {
    /// The blank snapshot.
    fn default() -> (out: Termios)
        ensures
            out@ == Mode::blank(),
    {
        let out = Termios { c_iflag: 0, c_oflag: 0, c_cflag: 0, c_lflag: 0, c_cc: [0u8; 32] };
        assert(out@.cc =~= Mode::blank().cc);
        out
    }
}

impl Termios {
    /// Derives the raw variant of this snapshot. The snapshot itself is left
    /// as it was captured.
    pub fn make_raw(&self) -> (out: Termios)
        ensures
            out@ == self@.raw(),
    {
        let mut cc = self.c_cc;
        cc[VMIN] = 1;
        cc[VTIME] = 0;
        Termios {
            c_iflag: clear_bits(self.c_iflag, RAW_INPUT_MASK),
            c_oflag: clear_bits(self.c_oflag, RAW_OUTPUT_MASK),
            c_cflag: self.c_cflag,
            c_lflag: clear_bits(self.c_lflag, RAW_LOCAL_MASK),
            c_cc: cc,
        }
    }

    /// Derives the snapshot with the canonical/echo group cleared (`enable`)
    /// or set.
    pub fn with_raw_input(&self, enable: bool) -> (out: Termios)
        ensures
            out@ == self@.raw_input(enable),
    {
        let lflag: u32 = if enable {
            clear_bits(self.c_lflag, CANONICAL_ECHO_GROUP)
        } else {
            set_bits(self.c_lflag, CANONICAL_ECHO_GROUP)
        };
        Termios {
            c_iflag: self.c_iflag,
            c_oflag: self.c_oflag,
            c_cflag: self.c_cflag,
            c_lflag: lflag,
            c_cc: self.c_cc,
        }
    }
}

/// Turns the snapshot behind `ios` into its raw variant.
pub fn raw_terminal_attr(ios: &mut Termios)
    ensures
        final(ios)@ == old(ios)@.raw(),
{
    let raw = ios.make_raw();
    *ios = raw;
}

/// Reads the answer to a mode query: the reported snapshot, or the error
/// that says why there is none.
pub fn get_terminal_attr(reply: OsReply<Termios>) -> (out: Result<Termios, TtyError>)
    ensures
        reply matches OsReply::Accepted(t) ==> out == Ok::<Termios, TtyError>(t),
        reply is Rejected ==> out == Err::<Termios, TtyError>(TtyError::QueryFailed),
        reply is InvalidHandle ==> out == Err::<Termios, TtyError>(TtyError::HandleInvalid),
{
    match reply {
        OsReply::Accepted(t) => Ok(t),
        OsReply::Rejected => Err(TtyError::QueryFailed),
        OsReply::InvalidHandle => Err(TtyError::HandleInvalid),
    }
}

/// Reads the answer to a request to install a mode.
pub fn set_terminal_attr(reply: OsReply<()>) -> (out: Result<(), TtyError>)
    ensures
        reply is Accepted ==> out == Ok::<(), TtyError>(()),
        reply is Rejected ==> out == Err::<(), TtyError>(TtyError::ApplyFailed),
        reply is InvalidHandle ==> out == Err::<(), TtyError>(TtyError::HandleInvalid),
{
    match reply {
        OsReply::Accepted(_) => Ok(()),
        OsReply::Rejected => Err(TtyError::ApplyFailed),
        OsReply::InvalidHandle => Err(TtyError::HandleInvalid),
    }
}

} // verus!
