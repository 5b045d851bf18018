//! Terminal detection, the session guard, the raw-mode toggle, and the choice
//! of the device that stands for the controlling terminal.

use vstd::prelude::*;
use crate::attr::{Mode, Termios};
use crate::console::{
    startup_input, startup_input_snapshot, startup_output, startup_output_snapshot,
};
use crate::device::Platform;
use crate::error::{query_error, OsReply, TtyError};

verus! {

/// One of the two standard streams whose mode a session manages. It names a
/// stream, not a handle: the handle is looked up anew for every request.
#[derive(Clone, Copy, Debug, PartialEq, Eq, Structural)]
pub enum StdStream {
    IN,
    OUT,
}

/// A mode-mutating call that is to be made: install `mode` on `stream`.
#[derive(Clone, Copy, Debug, PartialEq, Eq)]
pub struct ModeRequest {
    pub stream: StdStream,
    pub mode: Termios,
}

/// A list of requests as a mathematical value: for each, the stream and the
/// mode to install, in the order in which they are to be made.
pub open spec fn plan(requests: Seq<ModeRequest>) -> Seq<(StdStream, Mode)> {
    requests.map_values(|r: ModeRequest| (r.stream, r.mode@))
}

/// Whether a stream is a terminal, from the answer to a mode query on it. A
/// stream is a terminal exactly if the query was answered; a refusal or a
/// dead handle is a plain `false`, never an error.
pub fn is_tty<T>(reply: &OsReply<T>) -> (out: bool)
    ensures
        out == (*reply is Accepted),
{
    match reply {
        OsReply::Accepted(_) => true,
        _ => false,
    }
}

/// The session guard: the modes that the two streams had when the session
/// began, and whether they are to be put back when it ends.
#[derive(Debug)]
pub struct PreInitState {
    do_cleanup: bool,
    current_out_mode: Termios,
    current_in_mode: Termios,
}

impl PreInitState {
    /// Whether the guard holds modes to restore.
    pub closed spec fn cleanup(&self) -> bool {
        self.do_cleanup
    }

    /// The output mode captured when the session began.
    pub closed spec fn saved_out(&self) -> Mode {
        self.current_out_mode@
    }

    /// The input mode captured when the session began.
    pub closed spec fn saved_in(&self) -> Mode {
        self.current_in_mode@
    }

    /// What the guard asks to install when the session begins. An inert
    /// guard asks for nothing. A terminal device is left as it was found, so
    /// nothing is asked for there either. On a console the guard asks for the
    /// console's startup modes, output first.
    pub open spec fn startup_plan(&self, platform: Platform) -> Seq<(StdStream, Mode)> {
        if self.cleanup() && platform == Platform::Windows {
            seq![
                (StdStream::OUT, startup_output(self.saved_out())),
                (StdStream::IN, startup_input(self.saved_in())),
            ]
        } else {
            seq![]
        }
    }

    /// What the guard asks to install when the session ends: nothing for an
    /// inert guard, else the captured modes, output first.
    pub open spec fn release_plan(&self) -> Seq<(StdStream, Mode)> {
        if self.cleanup() {
            seq![(StdStream::OUT, self.saved_out()), (StdStream::IN, self.saved_in())]
        } else {
            seq![]
        }
    }

    /// Whether the guard holds modes to restore.
    pub fn do_cleanup(&self) -> (out: bool)
        ensures
            out == self.cleanup(),
    {
        self.do_cleanup
    }

    /// The output mode captured when the session began.
    pub fn output_mode(&self) -> (out: Termios)
        ensures
            out@ == self.saved_out(),
    {
        self.current_out_mode
    }

    /// The input mode captured when the session began.
    pub fn input_mode(&self) -> (out: Termios)
        ensures
            out@ == self.saved_in(),
    {
        self.current_in_mode
    }

    /// The requests to make once the guard exists, on the given platform.
    /// Whether the system carries them out is of no concern to the session.
    pub fn startup_requests(&self, platform: Platform) -> (out: Vec<ModeRequest>)
        ensures
            plan(out@) == self.startup_plan(platform),
            !self.cleanup() || platform != Platform::Windows ==> out@.len() == 0,
    {
        let mut out: Vec<ModeRequest> = Vec::new();
        if self.do_cleanup && matches!(platform, Platform::Windows) {
            out.push(
                ModeRequest {
                    stream: StdStream::OUT,
                    mode: startup_output_snapshot(&self.current_out_mode),
                },
            );
            out.push(
                ModeRequest {
                    stream: StdStream::IN,
                    mode: startup_input_snapshot(&self.current_in_mode),
                },
            );
        }
        assert(plan(out@) =~= self.startup_plan(platform));
        out
    }

    /// Ends the session: gives up the guard and returns the requests that
    /// put the captured modes back, output first. An inert guard asks for
    /// nothing. Failures of these requests are to be ignored.
    pub fn release(self) -> (out: Vec<ModeRequest>)
        ensures
            plan(out@) == self.release_plan(),
            !self.cleanup() ==> out@.len() == 0,
    {
        let mut out: Vec<ModeRequest> = Vec::new();
        if self.do_cleanup {
            out.push(ModeRequest { stream: StdStream::OUT, mode: self.current_out_mode });
            out.push(ModeRequest { stream: StdStream::IN, mode: self.current_in_mode });
        }
        assert(plan(out@) =~= self.release_plan());
        out
    }
}

/// Builds the guard from the answers to the two mode queries, or says which
/// query failed: the output stream's if it did, else the input stream's.
pub fn do_init(out_reply: OsReply<Termios>, in_reply: OsReply<Termios>) -> (out: Result<
    PreInitState,
    TtyError,
>)
    ensures
        out is Ok <==> (out_reply is Accepted && in_reply is Accepted),
        out matches Ok(guard) ==> guard.cleanup() && guard.saved_out() == out_reply->Accepted_0@
            && guard.saved_in() == in_reply->Accepted_0@,
        out matches Err(e) ==> Some(e) == (if out_reply is Accepted {
            query_error(in_reply)
        } else {
            query_error(out_reply)
        }),
{
    let current_out_mode = match out_reply {
        OsReply::Accepted(t) => t,
        OsReply::Rejected => {
            return Err(TtyError::QueryFailed);
        },
        OsReply::InvalidHandle => {
            return Err(TtyError::HandleInvalid);
        },
    };
    let current_in_mode = match in_reply {
        OsReply::Accepted(t) => t,
        OsReply::Rejected => {
            return Err(TtyError::QueryFailed);
        },
        OsReply::InvalidHandle => {
            return Err(TtyError::HandleInvalid);
        },
    };
    Ok(PreInitState { do_cleanup: true, current_out_mode, current_in_mode })
}

/// Where the beginning of a session stands once the output stream's mode
/// has been asked for.
#[derive(Debug)]
pub enum InitStep {
    /// The output mode was reported: the input stream's mode is to be asked
    /// for next.
    QueryInput(Termios),
    /// The query failed: the session stops at this first failure with an
    /// inert guard, and the input stream is not asked.
    Done(PreInitState),
}

fn inert() -> (guard: PreInitState)
    ensures
        !guard.cleanup(),
        guard.saved_out() == Mode::blank(),
        guard.saved_in() == Mode::blank(),
{
    PreInitState {
        do_cleanup: false,
        current_out_mode: Termios::default(),
        current_in_mode: Termios::default(),
    }
}

/// The first step of beginning a session, from the answer to the mode query
/// on the output stream: go on to the input stream if it was answered, stop
/// with an inert guard if it was not.
pub fn init_step(out_reply: OsReply<Termios>) -> (step: InitStep)
    ensures
        step is QueryInput <==> out_reply is Accepted,
        step is QueryInput ==> step->QueryInput_0 == out_reply->Accepted_0,
        step is Done ==> !step->Done_0.cleanup() && step->Done_0.saved_out() == Mode::blank()
            && step->Done_0.saved_in() == Mode::blank(),
{
    match out_reply {
        OsReply::Accepted(out_mode) => InitStep::QueryInput(out_mode),
        _ => InitStep::Done(inert()),
    }
}

/// The second step of beginning a session, from the output mode and the
/// answer to the mode query on the input stream: a guard that holds both
/// modes if it was answered, an inert guard if it was not.
pub fn init_finish(out_mode: Termios, in_reply: OsReply<Termios>) -> (guard: PreInitState)
    ensures
        guard.cleanup() == (in_reply is Accepted),
        guard.cleanup() ==> guard.saved_out() == out_mode@ && guard.saved_in()
            == in_reply->Accepted_0@,
        !guard.cleanup() ==> guard.saved_out() == Mode::blank() && guard.saved_in()
            == Mode::blank(),
{
    match in_reply {
        OsReply::Accepted(in_mode) => PreInitState {
            do_cleanup: true,
            current_out_mode: out_mode,
            current_in_mode: in_mode,
        },
        _ => inert(),
    }
}

/// Begins a session from the answers to the two mode queries. If both were
/// answered the guard holds the reported modes and will restore them; if
/// either failed the guard is inert: it holds blank modes and will never ask
/// for a mode to be installed.
pub fn init(out_reply: OsReply<Termios>, in_reply: OsReply<Termios>) -> (guard: PreInitState)
    ensures
        guard.cleanup() == (out_reply is Accepted && in_reply is Accepted),
        guard.cleanup() ==> guard.saved_out() == out_reply->Accepted_0@ && guard.saved_in()
            == in_reply->Accepted_0@,
        !guard.cleanup() ==> guard.saved_out() == Mode::blank() && guard.saved_in()
            == Mode::blank(),
{
    match do_init(out_reply, in_reply) {
        Ok(guard) => guard,
        Err(_) => inert(),
    }
}

/// The raw-mode toggle's decision, from the answer to a mode query on the
/// input stream: the request that clears (`enable`) or sets the
/// canonical/echo group and leaves every other bit as reported, or the error
/// of the query. The toggle succeeds if this request is then carried out.
pub fn set_raw_input_mode(enable: bool, current: OsReply<Termios>) -> (out: Result<
    ModeRequest,
    TtyError,
>)
    ensures
        out is Ok <==> current is Accepted,
        out matches Ok(request) ==> request.stream == StdStream::IN && request.mode@
            == current->Accepted_0@.raw_input(enable),
        out matches Err(e) ==> Some(e) == query_error(current),
{
    match current {
        OsReply::Accepted(t) => Ok(
            ModeRequest { stream: StdStream::IN, mode: t.with_raw_input(enable) },
        ),
        OsReply::Rejected => Err(TtyError::QueryFailed),
        OsReply::InvalidHandle => Err(TtyError::HandleInvalid),
    }
}

} // verus!
