//! Decision core of a grid-based multiplayer survival ("snake") agent.
//!
//! Once per turn the surrounding transport hands this crate a snapshot of the
//! board (dimensions, the agent's own body, the other agents' bodies, food)
//! and receives back one of four directional moves. The selection itself is a
//! sequence of elimination filters over a four-entry candidate set, followed
//! by a random draw among the surviving directions; it lives in [`logic`].

use vstd::prelude::*;

pub mod logic;

verus! {

/// A grid cell, addressed by a pair of integer coordinates. Nothing is
/// enforced at construction; whether a cell lies on the board is contextual,
/// relative to the board's dimensions.
#[derive(Clone, Copy, Debug, PartialEq, Eq, Structural)]
pub struct Coord {
    pub x: i32,
    pub y: i32,
}

/// One of the four moves the agent can answer with. `Up` increases `y`,
/// `Right` increases `x` (a Cartesian grid where `y` grows upward).
#[derive(Clone, Copy, Debug, PartialEq, Eq, Structural)]
pub enum Direction {
    Up,
    Down,
    Left,
    Right,
}

/// The candidate direction set of one turn: a still-safe flag per direction.
/// It starts fully `true` and the filters only ever clear flags, never set
/// them back, so elimination is monotonic within a turn.
#[derive(Clone, Copy, Debug, PartialEq, Eq, Structural)]
pub struct PossibleMoves {
    pub up: bool,
    pub down: bool,
    pub left: bool,
    pub right: bool,
}

/// One agent on the board: its body from head (`body[0]`) to tail, with the
/// head also carried separately, as the snapshot delivers it.
#[derive(Clone, Debug)]
pub struct Battlesnake {
    pub head: Coord,
    pub body: Vec<Coord>,
}

/// The board part of a snapshot: dimensions, the food cells in snapshot
/// order, and every agent currently alive (the acting agent included,
/// depending on the snapshot's convention).
#[derive(Clone, Debug)]
pub struct Board {
    pub width: i32,
    pub height: i32,
    pub food: Vec<Coord>,
    pub snakes: Vec<Battlesnake>,
}

/// The identity of the game a snapshot belongs to.
#[derive(Clone, Debug)]
pub struct Game {
    pub id: String,
}

impl Direction {
    /// The wire label of this direction, as the game protocol spells it.
    pub open spec fn label_spec(self) -> Seq<char> {
        match self {
            Direction::Up => "up"@,
            Direction::Down => "down"@,
            Direction::Left => "left"@,
            Direction::Right => "right"@,
        }
    }

    /// The wire label of this direction.
    pub fn label(&self) -> (r: &'static str)
        ensures
            r@ == self.label_spec(),
    {
        match self {
            Direction::Up => "up",
            Direction::Down => "down",
            Direction::Left => "left",
            Direction::Right => "right",
        }
    }
}

} // verus!
