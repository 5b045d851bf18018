//! Mode-flag words: which bit means what, and the two operations that every
//! mode change is made of.

use vstd::prelude::*;

verus! {

/// Input flag: ignore a break condition.
pub const IGNBRK: u32 = 0x0001;

/// Input flag: a break condition raises an interrupt.
pub const BRKINT: u32 = 0x0002;

/// Input flag: mark bytes that arrive with a parity or framing error.
pub const PARMRK: u32 = 0x0008;

/// Input flag: strip the eighth bit.
pub const ISTRIP: u32 = 0x0020;

/// Input flag: turn a newline into a carriage return.
pub const INLCR: u32 = 0x0040;

/// Input flag: ignore a carriage return.
pub const IGNCR: u32 = 0x0080;

/// Input flag: turn a carriage return into a newline.
pub const ICRNL: u32 = 0x0100;

/// Input flag: start/stop flow control on output.
pub const IXON: u32 = 0x0400;

/// Output flag: post-process what is written.
pub const OPOST: u32 = 0x0001;

/// Local flag: the interrupt, quit and suspend keys raise their signals.
pub const ISIG: u32 = 0x0001;

/// Local flag: input is handed over line by line.
pub const ICANON: u32 = 0x0002;

/// Local flag: typed characters are echoed.
pub const ECHO: u32 = 0x0008;

/// Place of the read timeout among the control characters.
pub const VTIME: usize = 5;

/// Place of the minimum read count among the control characters.
pub const VMIN: usize = 6;

/// Number of control characters in a snapshot.
pub const NCCS: usize = 32;

/// The input flags that raw mode clears: break handling, parity marking,
/// stripping, newline translation and flow control.
pub const RAW_INPUT_MASK: u32 = IGNBRK | BRKINT | PARMRK | ISTRIP | INLCR | IGNCR | ICRNL | IXON;

/// The output flags that raw mode clears.
pub const RAW_OUTPUT_MASK: u32 = OPOST;

/// The local flags that raw mode clears: signal keys, line buffering and
/// echo.
pub const RAW_LOCAL_MASK: u32 = ISIG | ICANON | ECHO;

/// The canonical/echo group of local flags: line buffering and echo. The
/// raw-input toggle clears it or sets it; signal keys are not part of it.
pub const CANONICAL_ECHO_GROUP: u32 = ICANON | ECHO;

/// Whether bit `pos` of `word` is one.
pub open spec fn bit(word: u32, pos: u32) -> bool {
    (word >> pos) & 1 == 1
}

/// `word` with every bit of `mask` cleared.
pub open spec fn without(word: u32, mask: u32) -> u32 {
    word & !mask
}

/// `word` with every bit of `mask` set.
pub open spec fn with(word: u32, mask: u32) -> u32 {
    word | mask
}

/// Clearing a mask leaves a bit set exactly where it was set and the mask has
/// none; all other bits are as before.
pub proof fn lemma_without_bits(word: u32, mask: u32)
    ensures
        forall|pos: u32| pos < 32 ==> #[trigger] bit(without(word, mask), pos) == (bit(word, pos) && !bit(mask, pos)),
        without(word, mask) & mask == 0,
        without(word, mask) & !mask == word & !mask,
{
    assert(forall|pos: u32| pos < 32 ==> #[trigger] bit(without(word, mask), pos) == (bit(word, pos) && !bit(mask, pos))) by (bit_vector);
    assert((word & !mask) & mask == 0) by (bit_vector);
    assert((word & !mask) & !mask == word & !mask) by (bit_vector);
}

/// Setting a mask leaves a bit set exactly where it was set or the mask has
/// one; all other bits are as before.
pub proof fn lemma_with_bits(word: u32, mask: u32)
    ensures
        forall|pos: u32| pos < 32 ==> #[trigger] bit(with(word, mask), pos) == (bit(word, pos) || bit(mask, pos)),
        with(word, mask) & mask == mask,
        with(word, mask) & !mask == word & !mask,
{
    assert(forall|pos: u32| pos < 32 ==> #[trigger] bit(with(word, mask), pos) == (bit(word, pos) || bit(mask, pos))) by (bit_vector);
    assert((word | mask) & mask == mask) by (bit_vector);
    assert((word | mask) & !mask == word & !mask) by (bit_vector);
}

/// Clearing a mask a second time changes nothing.
pub proof fn lemma_clearing_twice(word: u32, mask: u32)
    ensures
        without(without(word, mask), mask) == without(word, mask),
{
    assert((word & !mask) & !mask == word & !mask) by (bit_vector);
}

/// Setting a mask a second time changes nothing.
pub proof fn lemma_setting_twice(word: u32, mask: u32)
    ensures
        with(with(word, mask), mask) == with(word, mask),
{
    assert((word | mask) | mask == word | mask) by (bit_vector);
}

/// Clearing a mask and setting it again gives back a word that had the
/// whole mask set.
pub proof fn lemma_clear_then_set(word: u32, mask: u32)
    requires
        word & mask == mask,
    ensures
        with(without(word, mask), mask) == word,
{
    assert((word & !mask) | mask == word) by (bit_vector)
        requires
            word & mask == mask,
    ;
}

/// Clears the bits of `mask` in `word`.
pub fn clear_bits(word: u32, mask: u32) -> (out: u32)
    ensures
        out == without(word, mask),
        forall|pos: u32| pos < 32 ==> #[trigger] bit(out, pos) == (bit(word, pos) && !bit(mask, pos)),
{
    proof {
        lemma_without_bits(word, mask);
    }
    word & !mask
}

/// Sets the bits of `mask` in `word`.
pub fn set_bits(word: u32, mask: u32) -> (out: u32)
    ensures
        out == with(word, mask),
        forall|pos: u32| pos < 32 ==> #[trigger] bit(out, pos) == (bit(word, pos) || bit(mask, pos)),
{
    proof {
        lemma_with_bits(word, mask);
    }
    word | mask
}

} // verus!
