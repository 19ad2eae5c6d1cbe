//! The confirm-time draw of the two-word variant: which of the two target
//! words is "correct" for a confirm press is selected by a random draw made
//! at that moment, rounded to an integer in 0..=100 and compared against the
//! midpoint. The draw itself is the host's business; this module classifies
//! its rounded value and defines what counts as a match.

use vstd::prelude::*;

verus! {

/// Midpoint of the rounded draw range 0..=100. A draw landing exactly here
/// selects neither word.
pub const DRAW_MIDPOINT: u64 = 50;

/// Which side of the midpoint the confirm-time draw fell on.
#[derive(Clone, Copy, Debug, PartialEq, Eq, Structural)]
pub enum DrawOutcome {
    /// Below the midpoint: the second word is active.
    Low,
    /// Exactly the midpoint: neither word is active this confirm.
    Mid,
    /// Above the midpoint: the first word is active.
    High,
}

/// Classification of a rounded draw value against the midpoint.
pub open spec fn spec_classify_draw(v: int) -> DrawOutcome {
    if v > DRAW_MIDPOINT {
        DrawOutcome::High
    } else if v < DRAW_MIDPOINT {
        DrawOutcome::Low
    } else {
        DrawOutcome::Mid
    }
}

/// Decides `spec_classify_draw` on a concrete rounded draw value.
pub fn classify_draw(v: u64) -> (r: DrawOutcome)
    ensures
        r == spec_classify_draw(v as int),
{
    if v > DRAW_MIDPOINT {
        DrawOutcome::High
    } else if v < DRAW_MIDPOINT {
        DrawOutcome::Low
    } else {
        DrawOutcome::Mid
    }
}

/// The first target word of the two-word variant.
pub open spec fn spec_word_one() -> Seq<char> {
    seq!['d', 'r', 'a', 'c', 'o']
}

/// The second target word of the two-word variant.
pub open spec fn spec_word_two() -> Seq<char> {
    seq!['s', 'a', 'n', 'c', 't', 'i']
}

/// A confirm press of the two-word variant matches exactly when the draw
/// selected a word and the buffer holds precisely that word.
pub open spec fn spec_two_word_match(
    buf: Seq<char>,
    word_one: Seq<char>,
    word_two: Seq<char>,
    d: DrawOutcome,
) -> bool {
    ||| (d == DrawOutcome::High && buf == word_one)
    ||| (d == DrawOutcome::Low && buf == word_two)
}

/// The first target word as a character vector.
pub fn word_one() -> (w: Vec<char>)
    ensures
        w@ == spec_word_one(),
{
    let mut w: Vec<char> = Vec::new();
    w.push('d');
    w.push('r');
    w.push('a');
    w.push('c');
    w.push('o');
    proof {
        assert(w@ =~= spec_word_one());
    }
    w
}

/// The second target word as a character vector.
pub fn word_two() -> (w: Vec<char>)
    ensures
        w@ == spec_word_two(),
{
    let mut w: Vec<char> = Vec::new();
    w.push('s');
    w.push('a');
    w.push('n');
    w.push('c');
    w.push('t');
    w.push('i');
    proof {
        assert(w@ =~= spec_word_two());
    }
    w
}

} // verus!
