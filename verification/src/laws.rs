//! What holds of the library as a whole: laws that relate several of its
//! operations, each proved from the definitions that the contracts use.

use vstd::prelude::*;
use crate::attr::Mode;
use crate::device::Platform;
use crate::flags::{
    lemma_clear_then_set, lemma_clearing_twice, lemma_setting_twice, lemma_with_bits,
    lemma_without_bits, CANONICAL_ECHO_GROUP, RAW_INPUT_MASK, RAW_LOCAL_MASK, RAW_OUTPUT_MASK,
    VMIN, VTIME,
};
use crate::sim::{lemma_run_two, StreamState, TerminalState};
use crate::tty::{PreInitState, StdStream};

verus! {

/// Whether a mode has line buffering and echo both on.
pub open spec fn cooked(mode: Mode) -> bool {
    mode.lflag & CANONICAL_ECHO_GROUP == CANONICAL_ECHO_GROUP
}

/// Making a snapshot raw twice gives what making it raw once gives.
pub proof fn lemma_make_raw_idempotent(mode: Mode)
    requires
        mode.wf(),
    ensures
        mode.raw().raw() == mode.raw(),
{
    let once = mode.raw();
    let twice = once.raw();
    lemma_clearing_twice(mode.iflag, RAW_INPUT_MASK);
    lemma_clearing_twice(mode.oflag, RAW_OUTPUT_MASK);
    lemma_clearing_twice(mode.lflag, RAW_LOCAL_MASK);
    assert(twice.cc =~= once.cc);
}

/// Making a snapshot raw clears the three masks, the signal, line-buffering
/// and echo flags among them, and touches no bit outside them and no control
/// character but the read count and the read timeout.
pub proof fn lemma_make_raw_preserves(mode: Mode)
    requires
        mode.wf(),
    ensures
        mode.raw().wf(),
        mode.raw().iflag & !RAW_INPUT_MASK == mode.iflag
            & !RAW_INPUT_MASK,
        mode.raw().oflag & !RAW_OUTPUT_MASK == mode.oflag
            & !RAW_OUTPUT_MASK,
        mode.raw().lflag & !RAW_LOCAL_MASK == mode.lflag & !RAW_LOCAL_MASK,
        mode.raw().iflag & RAW_INPUT_MASK == 0,
        mode.raw().oflag & RAW_OUTPUT_MASK == 0,
        mode.raw().lflag & RAW_LOCAL_MASK == 0,
        mode.raw().cflag == mode.cflag,
        mode.raw().cc[VMIN as int] == 1,
        mode.raw().cc[VTIME as int] == 0,
        forall|i: int|
            0 <= i < mode.cc.len() && i != VMIN && i != VTIME
                ==> mode.raw().cc[i] == mode.cc[i],
{
    lemma_without_bits(mode.iflag, RAW_INPUT_MASK);
    lemma_without_bits(mode.oflag, RAW_OUTPUT_MASK);
    lemma_without_bits(mode.lflag, RAW_LOCAL_MASK);
}

/// Toggling raw input twice to the same side gives what toggling once gives.
pub proof fn lemma_toggle_idempotent(mode: Mode, enable: bool)
    ensures
        mode.raw_input(enable).raw_input(enable) == mode.raw_input(enable),
{
    lemma_clearing_twice(mode.lflag, CANONICAL_ECHO_GROUP);
    lemma_setting_twice(mode.lflag, CANONICAL_ECHO_GROUP);
}

/// The toggle touches the canonical/echo group of the local flags and
/// nothing else.
pub proof fn lemma_toggle_touches_group_only(mode: Mode, enable: bool)
    ensures
        mode.raw_input(enable).lflag & !CANONICAL_ECHO_GROUP == mode.lflag & !CANONICAL_ECHO_GROUP,
        mode.raw_input(enable).lflag & CANONICAL_ECHO_GROUP == (if enable {
            0u32
        } else {
            CANONICAL_ECHO_GROUP
        }),
        mode.raw_input(enable).iflag == mode.iflag,
        mode.raw_input(enable).oflag == mode.oflag,
        mode.raw_input(enable).cflag == mode.cflag,
        mode.raw_input(enable).cc == mode.cc,
{
    lemma_without_bits(mode.lflag, CANONICAL_ECHO_GROUP);
    lemma_with_bits(mode.lflag, CANONICAL_ECHO_GROUP);
}

/// Entering raw input and leaving it again gives back a cooked mode bit for
/// bit.
pub proof fn lemma_raw_then_cooked(mode: Mode)
    requires
        cooked(mode),
    ensures
        mode.raw_input(true).raw_input(false) == mode,
{
    lemma_clear_then_set(mode.lflag, CANONICAL_ECHO_GROUP);
}

/// Installing on a stream the mode just captured from it changes nothing.
pub proof fn lemma_apply_captured(term: TerminalState, which: StdStream)
    ensures
        term.mode(which) matches Some(m) ==> term.installed(which, m) == term,
        term.mode(which) is None ==> forall|m: Mode| term.installed(which, m) == term,
{
}

/// Guard symmetry: on a terminal whose input is cooked when the session has
/// begun, raw input switched on and then off leaves the terminal as it was
/// right after the session began.
pub proof fn lemma_guard_symmetry(before: TerminalState, platform: Platform)
    requires
        before.begun(platform).input matches StreamState::Terminal(m) && cooked(m),
    ensures
        before.begun(platform).toggled(true).toggled(false) == before.begun(platform),
{
    let began = before.begun(platform);
    let m = began.input->Terminal_0;
    lemma_raw_then_cooked(m);
}

/// An inert guard is silent: it asks for nothing when the session begins,
/// on any platform, and for nothing when it ends, so that no terminal is
/// changed by it.
pub proof fn lemma_inert_guard_is_silent(
    guard: PreInitState,
    term: TerminalState,
    platform: Platform,
)
    requires
        !guard.cleanup(),
    ensures
        guard.startup_plan(platform).len() == 0,
        guard.release_plan().len() == 0,
        term.run(guard.startup_plan(platform)) == term,
        term.run(guard.release_plan()) == term,
{
    lemma_run_two(term, guard.startup_plan(platform));
    lemma_run_two(term, guard.release_plan());
}

/// A session on a terminal that cannot be queried leaves it untouched from
/// beginning to end.
pub proof fn lemma_degraded_session(
    term: TerminalState,
    guard: PreInitState,
    platform: Platform,
)
    requires
        !term.guardable(),
        guard.cleanup() == term.guardable(),
    ensures
        term.begun(platform) == term,
        term.begun(platform).run(guard.release_plan()) == term,
{
    lemma_inert_guard_is_silent(guard, term, platform);
}

/// A session leaves a terminal device as it found it when it begins: only a
/// console is asked for startup modes.
pub proof fn lemma_no_startup_off_console(
    guard: PreInitState,
    term: TerminalState,
    platform: Platform,
)
    requires
        platform != Platform::Windows,
    ensures
        guard.startup_plan(platform).len() == 0,
        term.begun(platform) == term,
{
}

/// A session that began and ended on a guardable terminal, with nothing
/// done in between but toggling raw input, leaves both modes as they were
/// before it began.
pub proof fn lemma_session_round_trip(
    before: TerminalState,
    guard: PreInitState,
    platform: Platform,
    enable: bool,
)
    requires
        before.guardable(),
        guard.cleanup(),
        Some(guard.saved_in()) == before.mode(StdStream::IN),
        Some(guard.saved_out()) == before.mode(StdStream::OUT),
    ensures
        before.begun(platform).toggled(enable).run(guard.release_plan()) == before,
{
    let during = before.begun(platform).toggled(enable);
    lemma_run_two(during, guard.release_plan());
}

/// Releasing an active guard puts both captured modes back, whatever was
/// done to the modes of the two terminals in between.
pub proof fn lemma_release_restores(guard: PreInitState, term: TerminalState)
    requires
        guard.cleanup(),
        term.guardable(),
    ensures
        term.run(guard.release_plan()).mode(StdStream::IN) == Some(guard.saved_in()),
        term.run(guard.release_plan()).mode(StdStream::OUT) == Some(guard.saved_out()),
        term.run(guard.release_plan()).window == term.window,
{
    lemma_run_two(term, guard.release_plan());
}

} // verus!
