//! A flash-card study core: named topics back decks of question/answer
//! pairs kept in plain line files; a deck engine owns the study order,
//! recorded responses, progress and persistence data; and a screen state
//! machine drives a session from abstract input events. Terminal drawing,
//! key decoding and file access stay outside, behind the event and effect
//! types the controller exposes.
use vstd::prelude::*;

pub mod catalog;
pub mod deck;
pub mod session;
pub mod text;

verus! {

/// The larger of two counts; used where a divisor must stay at least one.
pub fn max_usize(a: usize, b: usize) -> (r: usize)
    ensures
        r == if a >= b { a } else { b },
{
    if a >= b {
        a
    } else {
        b
    }
}

/// The smaller of two counts; used to clamp cursors and selections.
pub fn min_usize(a: usize, b: usize) -> (r: usize)
    ensures
        r == if a <= b { a } else { b },
{
    if a <= b {
        a
    } else {
        b
    }
}

} // verus!
