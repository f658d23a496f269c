//! Game rules of a small spell-casting action game: health and shield
//! accounting, orc behaviour, the blink and fireball spells, sprite-sheet
//! animation and typed spell input. Every value the rules read is a plain
//! integer: hit points, nanoseconds, pixel distances and entity ids.
use vstd::prelude::*;

pub mod animation;
pub mod blink;
pub mod collision;
pub mod counter;
pub mod fireball;
pub mod health;
pub mod orc;
pub mod player;
pub mod spell;
pub mod spellbook;
pub mod timer;

verus! {

pub open spec fn min_int(a: int, b: int) -> int {
    if a <= b { a } else { b }
}

pub open spec fn max_int(a: int, b: int) -> int {
    if a >= b { a } else { b }
}

} // verus!
