//! A terminal held in memory. It answers the requests that a session makes
//! as an operating system would, so that whole sessions can be run, and
//! reasoned about, without a real terminal.

use vstd::prelude::*;
use crate::attr::{get_terminal_attr, set_terminal_attr, Mode, Termios};
use crate::console::{startup_input, startup_output};
use crate::device::Platform;
use crate::error::{OsReply, TtyError};
use crate::size::{terminal_size, WindowRect};
use crate::tty::{
    init_finish, init_step, is_tty, plan, set_raw_input_mode, InitStep, ModeRequest,
    PreInitState, StdStream,
};

verus! {

/// What a standard stream is attached to.
#[derive(Clone, Copy, Debug, PartialEq, Eq)]
pub enum Stream {
    /// Nothing: the stream has no live handle.
    Closed,
    /// A regular file or a pipe.
    File,
    /// A terminal in the given mode.
    Terminal(Termios),
}

/// A stream as a mathematical value.
pub ghost enum StreamState {
    Closed,
    File,
    Terminal(Mode),
}

impl View for Stream {
    type V = StreamState;

    open spec fn view(&self) -> StreamState {
        match *self {
            Stream::Closed => StreamState::Closed,
            Stream::File => StreamState::File,
            Stream::Terminal(t) => StreamState::Terminal(t@),
        }
    }
}

/// The two standard streams of a process and the window of its terminal.
#[derive(Clone, Copy, Debug, PartialEq, Eq)]
pub struct VirtualTerminal {
    pub input: Stream,
    pub output: Stream,
    pub window: WindowRect,
}

/// A terminal in memory as a mathematical value.
pub ghost struct TerminalState {
    pub input: StreamState,
    pub output: StreamState,
    pub window: WindowRect,
}

impl View for VirtualTerminal {
    type V = TerminalState;

    open spec fn view(&self) -> TerminalState {
        TerminalState { input: self.input@, output: self.output@, window: self.window }
    }
}

impl TerminalState {
    /// What the named stream is attached to.
    pub open spec fn stream(self, which: StdStream) -> StreamState {
        match which {
            StdStream::IN => self.input,
            StdStream::OUT => self.output,
        }
    }

    /// The mode of the named stream, if it is a terminal.
    pub open spec fn mode(self, which: StdStream) -> Option<Mode> {
        match self.stream(which) {
            StreamState::Terminal(m) => Some(m),
            _ => None,
        }
    }

    /// The state after a request to install `mode` on the named stream: a
    /// terminal takes the mode, anything else stays as it is.
    pub open spec fn installed(self, which: StdStream, mode: Mode) -> TerminalState {
        if self.stream(which) is Terminal {
            match which {
                StdStream::IN => TerminalState { input: StreamState::Terminal(mode), ..self },
                StdStream::OUT => TerminalState { output: StreamState::Terminal(mode), ..self },
            }
        } else {
            self
        }
    }

    /// The state after the requests of `steps`, made in order.
    pub open spec fn run(self, steps: Seq<(StdStream, Mode)>) -> TerminalState
        decreases steps.len(),
    {
        if steps.len() == 0 {
            self
        } else {
            self.run(steps.drop_last()).installed(steps.last().0, steps.last().1)
        }
    }

    /// How many of the requests of `steps`, made in order, are carried out:
    /// those made on a stream that is a terminal.
    pub open spec fn carried_out(self, steps: Seq<(StdStream, Mode)>) -> nat
        decreases steps.len(),
    {
        if steps.len() == 0 {
            0
        } else {
            let before = self.carried_out(steps.drop_last());
            if self.run(steps.drop_last()).stream(steps.last().0) is Terminal {
                before + 1
            } else {
                before
            }
        }
    }

    /// The state after the raw-mode toggle: the input stream's
    /// canonical/echo group is cleared (`enable`) or set if it is a
    /// terminal; anything else stays as it is.
    pub open spec fn toggled(self, enable: bool) -> TerminalState {
        match self.input {
            StreamState::Terminal(m) => self.installed(StdStream::IN, m.raw_input(enable)),
            _ => self,
        }
    }

    /// Whether a session can be guarded: both streams are terminals.
    pub open spec fn guardable(self) -> bool {
        self.input is Terminal && self.output is Terminal
    }

    /// The state right after a session began on the given platform: on a
    /// guardable console the startup modes are in place; anything else is
    /// untouched.
    pub open spec fn begun(self, platform: Platform) -> TerminalState {
        if self.guardable() && platform == Platform::Windows {
            TerminalState {
                input: StreamState::Terminal(startup_input(self.input->Terminal_0)),
                output: StreamState::Terminal(startup_output(self.output->Terminal_0)),
                window: self.window,
            }
        } else {
            self
        }
    }
}

impl VirtualTerminal {
    /// Answers a mode query on the named stream.
    pub fn query_mode(&self, which: StdStream) -> (reply: OsReply<Termios>)
        ensures
            self@.stream(which) is Closed <==> reply is InvalidHandle,
            self@.stream(which) is File <==> reply is Rejected,
            reply matches OsReply::Accepted(t) ==> self@.mode(which) == Some(t@),
    {
        let stream = match which {
            StdStream::IN => self.input,
            StdStream::OUT => self.output,
        };
        match stream {
            Stream::Closed => OsReply::InvalidHandle,
            Stream::File => OsReply::Rejected,
            Stream::Terminal(t) => OsReply::Accepted(t),
        }
    }

    /// Answers a window query on the named stream.
    pub fn query_window(&self, which: StdStream) -> (reply: OsReply<WindowRect>)
        ensures
            self@.stream(which) is Closed <==> reply is InvalidHandle,
            self@.stream(which) is File <==> reply is Rejected,
            reply matches OsReply::Accepted(w) ==> w == self.window,
    {
        match self.query_mode(which) {
            OsReply::InvalidHandle => OsReply::InvalidHandle,
            OsReply::Rejected => OsReply::Rejected,
            OsReply::Accepted(_) => OsReply::Accepted(self.window),
        }
    }

    /// Carries out a request to install a mode, if the stream is a terminal.
    pub fn install(&mut self, request: &ModeRequest) -> (reply: OsReply<()>)
        ensures
            final(self)@ == old(self)@.installed(request.stream, request.mode@),
            old(self)@.stream(request.stream) is Closed <==> reply is InvalidHandle,
            old(self)@.stream(request.stream) is File <==> reply is Rejected,
    {
        match self.query_mode(request.stream) {
            OsReply::InvalidHandle => OsReply::InvalidHandle,
            OsReply::Rejected => OsReply::Rejected,
            OsReply::Accepted(_) => {
                match request.stream {
                    StdStream::IN => {
                        self.input = Stream::Terminal(request.mode);
                    },
                    StdStream::OUT => {
                        self.output = Stream::Terminal(request.mode);
                    },
                }
                OsReply::Accepted(())
            },
        }
    }

    /// Carries out the requests in order, ignoring refusals, and returns how
    /// many were carried out.
    pub fn run(&mut self, requests: &Vec<ModeRequest>) -> (done: usize)
        ensures
            final(self)@ == old(self)@.run(plan(requests@)),
            done == old(self)@.carried_out(plan(requests@)),
    {
        let mut done: usize = 0;
        let mut i: usize = 0;
        assert(plan(requests@).take(0) =~= Seq::empty());
        while i < requests.len()
            invariant
                0 <= i <= requests@.len(),
                done <= i,
                done == old(self)@.carried_out(plan(requests@).take(i as int)),
                self@ == old(self)@.run(plan(requests@).take(i as int)),
            decreases requests@.len() - i,
        {
            let ghost steps = plan(requests@);
            assert(steps.take(i + 1).drop_last() =~= steps.take(i as int));
            assert(steps.take(i + 1).last() == (requests@[i as int].stream, requests@[i as int].mode@));
            let reply = self.install(&requests[i]);
            if is_tty(&reply) {
                done = done + 1;
            }
            i = i + 1;
        }
        assert(plan(requests@).take(i as int) =~= plan(requests@));
        done
    }

    /// Whether the named stream is a terminal.
    pub fn is_tty(&self, which: StdStream) -> (out: bool)
        ensures
            out == (self@.stream(which) is Terminal),
    {
        is_tty(&self.query_mode(which))
    }

    /// The size of the terminal behind the named stream.
    pub fn terminal_size(&self, which: StdStream) -> (out: Result<(u16, u16), TtyError>)
        ensures
            out is Ok <==> (self@.stream(which) is Terminal && self.window.visible()),
            out matches Ok(size) ==> size.0 == self.window.columns() && size.1
                == self.window.rows() && size.0 >= 1 && size.1 >= 1,
            out matches Err(e) ==> e == (if self@.stream(which) is Closed {
                TtyError::HandleInvalid
            } else {
                TtyError::QueryFailed
            }),
    {
        terminal_size(self.query_window(which))
    }

    /// Captures the mode of the named stream.
    pub fn capture(&self, which: StdStream) -> (out: Result<Termios, TtyError>)
        ensures
            out matches Ok(t) ==> self@.mode(which) == Some(t@),
            out is Ok <==> self@.stream(which) is Terminal,
            out matches Err(e) ==> e == (if self@.stream(which) is Closed {
                TtyError::HandleInvalid
            } else {
                TtyError::QueryFailed
            }),
    {
        get_terminal_attr(self.query_mode(which))
    }

    /// Installs a snapshot on the named stream.
    pub fn apply(&mut self, which: StdStream, snapshot: &Termios) -> (out: Result<(), TtyError>)
        ensures
            final(self)@ == old(self)@.installed(which, snapshot@),
            out is Ok <==> old(self)@.stream(which) is Terminal,
            out matches Err(e) ==> e == (if old(self)@.stream(which) is Closed {
                TtyError::HandleInvalid
            } else {
                TtyError::ApplyFailed
            }),
    {
        let request = ModeRequest { stream: which, mode: *snapshot };
        set_terminal_attr(self.install(&request))
    }

    /// Begins a session on this terminal, taken to be of the given platform:
    /// captures the output mode and then the input mode into a guard,
    /// stopping at the first that is refused, and makes the guard's startup
    /// requests.
    pub fn begin_session(&mut self, platform: Platform) -> (guard: PreInitState)
        ensures
            guard.cleanup() == old(self)@.guardable(),
            guard.cleanup() ==> Some(guard.saved_in()) == old(self)@.mode(StdStream::IN) && Some(
                guard.saved_out(),
            ) == old(self)@.mode(StdStream::OUT),
            final(self)@ == old(self)@.begun(platform),
    {
        let guard = match init_step(self.query_mode(StdStream::OUT)) {
            InitStep::QueryInput(out_mode) => init_finish(
                out_mode,
                self.query_mode(StdStream::IN),
            ),
            InitStep::Done(guard) => guard,
        };
        let requests = guard.startup_requests(platform);
        proof {
            lemma_run_two(self@, plan(requests@));
        }
        self.run(&requests);
        guard
    }

    /// Toggles raw input on this terminal and says whether the new mode was
    /// installed.
    pub fn set_raw_input_mode(&mut self, enable: bool) -> (out: bool)
        ensures
            out == (old(self)@.input is Terminal),
            final(self)@ == old(self)@.toggled(enable),
    {
        match set_raw_input_mode(enable, self.query_mode(StdStream::IN)) {
            Ok(request) => set_terminal_attr(self.install(&request)).is_ok(),
            Err(_) => false,
        }
    }

    /// Ends a session: makes the guard's restoring requests, ignoring
    /// refusals, and returns how many were made.
    pub fn end_session(&mut self, guard: PreInitState) -> (made: usize)
        ensures
            final(self)@ == old(self)@.run(guard.release_plan()),
            made == guard.release_plan().len(),
    {
        let requests = guard.release();
        assert(plan(requests@).len() == requests@.len());
        self.run(&requests);
        requests.len()
    }
}

/// Running no requests changes nothing; running two is installing the first
/// and then the second.
pub proof fn lemma_run_two(term: TerminalState, steps: Seq<(StdStream, Mode)>)
    ensures
        steps.len() == 0 ==> term.run(steps) == term,
        steps.len() == 2 ==> term.run(steps) == term.installed(steps[0].0, steps[0].1).installed(
            steps[1].0,
            steps[1].1,
        ),
{
    if steps.len() == 2 {
        let one = steps.drop_last();
        assert(one.len() == 1);
        assert(one.drop_last().len() == 0);
        assert(term.run(one.drop_last()) == term);
        assert(one.last() == steps[0]);
        assert(term.run(one) == term.installed(steps[0].0, steps[0].1));
    }
}

} // verus!
