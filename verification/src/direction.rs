//! The four directions of travel, the keys that ask for them, and the rule
//! that decides which turns a moving snake accepts.

use vstd::prelude::*;

verus! {

/// The line along which a direction moves.
#[derive(Clone, Copy, Debug, PartialEq, Eq, Structural)]
pub enum Axis {
    Vertical,
    Horizontal,
}

/// A direction of travel on the grid. `Up` leads to smaller rows and `Left`
/// to smaller columns.
#[derive(Clone, Copy, Debug, PartialEq, Eq, Structural)]
pub enum Direction {
    Up,
    Down,
    Left,
    Right,
}

/// A key press as the game sees it: one of the four arrow keys, or any other
/// key.
#[derive(Clone, Copy, Debug, PartialEq, Eq, Structural)]
pub enum Key {
    UpArrow,
    DownArrow,
    LeftArrow,
    RightArrow,
    Other,
}

impl Direction {
    /// The axis of a direction.
    pub open spec fn spec_axis(self) -> Axis {
        match self {
            Direction::Up | Direction::Down => Axis::Vertical,
            Direction::Left | Direction::Right => Axis::Horizontal,
        }
    }

    /// A turn is accepted when it leaves the axis of travel.
    pub open spec fn accepts(self, candidate: Direction) -> bool {
        self.spec_axis() != candidate.spec_axis()
    }

    /// The direction after a request for `candidate`: the candidate where
    /// the turn is accepted, the direction as it was where it is not.
    pub open spec fn spec_turn(self, candidate: Direction) -> Direction {
        if self.accepts(candidate) {
            candidate
        } else {
            self
        }
    }

    /// The direction that a key asks for, if it asks for one.
    pub open spec fn spec_from_key(key: Key) -> Option<Direction> {
        match key {
            Key::UpArrow => Some(Direction::Up),
            Key::DownArrow => Some(Direction::Down),
            Key::LeftArrow => Some(Direction::Left),
            Key::RightArrow => Some(Direction::Right),
            Key::Other => None,
        }
    }

    /// The direction after a key press: a key that asks for no direction
    /// changes nothing, and an arrow key is a request for a turn.
    pub open spec fn spec_after_key(self, key: Key) -> Direction {
        match Direction::spec_from_key(key) {
            Some(candidate) => self.spec_turn(candidate),
            None => self,
        }
    }

    /// The direction in which a new game starts.
    pub fn initial() -> (direction: Direction)
        ensures
            direction == Direction::Right,
    {
        Direction::Right
    }

    /// The axis of this direction.
    #[verifier::when_used_as_spec(spec_axis)]
    pub fn axis(self) -> (axis: Axis)
        ensures
            axis == self.spec_axis(),
    {
        match self {
            Direction::Up | Direction::Down => Axis::Vertical,
            Direction::Left | Direction::Right => Axis::Horizontal,
        }
    }

    /// Whether a moving snake accepts a turn towards `candidate`.
    pub fn accepts_turn(self, candidate: Direction) -> (accepted: bool)
        ensures
            accepted == self.accepts(candidate),
            accepted <==> self.spec_axis() != candidate.spec_axis(),
    {
        match self {
            Direction::Up | Direction::Down => match candidate {
                Direction::Left | Direction::Right => true,
                _ => false,
            },
            Direction::Left | Direction::Right => match candidate {
                Direction::Up | Direction::Down => true,
                _ => false,
            },
        }
    }

    /// The direction after a request for `candidate`.
    #[verifier::when_used_as_spec(spec_turn)]
    pub fn turn(self, candidate: Direction) -> (next: Direction)
        ensures
            next == self.spec_turn(candidate),
    {
        if self.accepts_turn(candidate) {
            candidate
        } else {
            self
        }
    }

    /// The direction that `key` asks for: one for each arrow key, none for
    /// any other key.
    #[verifier::when_used_as_spec(spec_from_key)]
    pub fn from_key(key: Key) -> (candidate: Option<Direction>)
        ensures
            candidate == Direction::spec_from_key(key),
    {
        match key {
            Key::UpArrow => Some(Direction::Up),
            Key::DownArrow => Some(Direction::Down),
            Key::LeftArrow => Some(Direction::Left),
            Key::RightArrow => Some(Direction::Right),
            Key::Other => None,
        }
    }

    /// The direction after a press of `key`.
    #[verifier::when_used_as_spec(spec_after_key)]
    pub fn after_key(self, key: Key) -> (next: Direction)
        ensures
            next == self.spec_after_key(key),
    {
        match Direction::from_key(key) {
            Some(candidate) => self.turn(candidate),
            None => self,
        }
    }
}

/// A turn is accepted exactly when the candidate is neither the direction of
/// travel nor its reverse.
pub proof fn lemma_turn_filter(current: Direction, candidate: Direction)
    ensures
        current.accepts(candidate) <==> current.spec_axis() != candidate.spec_axis(),
        current.accepts(candidate) <==> candidate != current && candidate != spec_reverse(current),
        current.spec_turn(candidate) == if current.accepts(candidate) {
            candidate
        } else {
            current
        },
{
}

/// The opposite direction.
pub open spec fn spec_reverse(direction: Direction) -> Direction {
    match direction {
        Direction::Up => Direction::Down,
        Direction::Down => Direction::Up,
        Direction::Left => Direction::Right,
        Direction::Right => Direction::Left,
    }
}

/// No key press reverses the direction: after a press the direction is
/// what it was, or it lies on the other axis.
pub proof fn lemma_key_press_never_reverses(current: Direction, key: Key)
    ensures
        current.spec_after_key(key) != spec_reverse(current),
        current.spec_after_key(key) == current || current.spec_after_key(key).spec_axis()
            != current.spec_axis(),
{
}

} // verus!
