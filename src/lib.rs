//! A guessing-game engine whose every stage is verified: a line is parsed
//! as an integer, checked against inclusive bounds, and compared with a
//! secret, and a session state machine drives these stages, keeping parse
//! and range failures recoverable and a failed read fatal. Alongside it
//! stand the smaller pieces it is built from or shares its parser with.
use vstd::prelude::*;

pub mod guess;
pub mod hof;
pub mod integer;
pub mod records;
pub mod session;
pub mod summation;
pub mod text;

verus! {

pub fn add(left: usize, right: usize) -> (r: usize)
    requires
        left + right <= usize::MAX,
    ensures
        r == left + right,
{
    left + right
}

pub fn add_two(a: i32) -> (r: i32)
    requires
        a + 2 <= i32::MAX,
    ensures
        r == a + 2,
{
    a + 2
}

} // verus!
