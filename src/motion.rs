use vstd::prelude::*;

verus! {

/// What the robot is doing: idle, driving forward, or turning in place.
/// Turning and driving exclude each other.
#[derive(Clone, Copy, Debug, PartialEq, Eq, Structural)]
pub enum Direction {
    Still,
    Forward,
    Left,
    Right,
}

/// A way to turn in place.
#[derive(Clone, Copy, Debug, PartialEq, Eq, Structural)]
pub enum Turn {
    Left,
    Right,
}

/// The direction that a turn sets.
pub open spec fn turn_direction(turn: Turn) -> Direction {
    match turn {
        Turn::Left => Direction::Left,
        Turn::Right => Direction::Right,
    }
}

/// The direction after a forward command: taken from rest or while already
/// driving forward, refused in the middle of a turn.
pub open spec fn after_forward(d: Direction) -> Direction {
    if d == Direction::Still || d == Direction::Forward {
        Direction::Forward
    } else {
        d
    }
}

/// The direction after a turn command: taken from rest or while already
/// turning that way, refused otherwise.
pub open spec fn after_turn(d: Direction, turn: Turn) -> Direction {
    if d == Direction::Still || d == turn_direction(turn) {
        turn_direction(turn)
    } else {
        d
    }
}

/// The direction after a tick: back to rest when the acceleration could not
/// beat friction, unchanged otherwise.
pub open spec fn after_tick(d: Direction, below_friction: bool) -> Direction {
    if below_friction {
        Direction::Still
    } else {
        d
    }
}

impl Direction {
    /// Takes a forward command if the lock allows it; returns whether it did,
    /// in which case the caller sets the forward acceleration.
    pub fn set_forward(&mut self) -> (r: bool)
        ensures
            *final(self) == after_forward(*old(self)),
            r == (*old(self) == Direction::Still || *old(self) == Direction::Forward),
    {
        match *self {
            Direction::Still | Direction::Forward => {
                *self = Direction::Forward;
                true
            },
            _ => false,
        }
    }

    /// Takes a turn command if the lock allows it; returns whether it did,
    /// in which case the caller sets the turning acceleration.
    pub fn set_turn(&mut self, turn: Turn) -> (r: bool)
        ensures
            *final(self) == after_turn(*old(self), turn),
            r == (*old(self) == Direction::Still || *old(self) == turn_direction(turn)),
    {
        let target = match turn {
            Turn::Left => Direction::Left,
            Turn::Right => Direction::Right,
        };
        if *self == Direction::Still || *self == target {
            *self = target;
            true
        } else {
            false
        }
    }

    /// The direction part of a tick: `below_friction` says whether the
    /// acceleration after friction is under the friction constant.
    pub fn tick(&mut self, below_friction: bool)
        ensures
            *final(self) == after_tick(*old(self), below_friction),
    {
        if below_friction {
            *self = Direction::Still;
        }
    }

    pub fn reset(&mut self)
        ensures
            *final(self) == Direction::Still,
    {
        *self = Direction::Still;
    }

    /// Whether a tick moves the robot along its heading.
    pub fn is_translating(&self) -> (r: bool)
        ensures
            r == (*self == Direction::Forward),
    {
        *self == Direction::Forward
    }

    /// Sign of the yaw change of a tick: positive turning left, negative
    /// turning right, zero otherwise.
    pub fn turn_sign(&self) -> (r: i8)
        ensures
            r == (if *self == Direction::Left {
                1i8
            } else if *self == Direction::Right {
                -1i8
            } else {
                0i8
            }),
    {
        match *self {
            Direction::Left => 1,
            Direction::Right => -1,
            _ => 0,
        }
    }
}

/// The direction lock: a turn command while driving forward changes nothing,
/// and neither does a forward command while turning; a turn the other way
/// while turning changes nothing either.
pub proof fn lemma_direction_lock(d: Direction, turn: Turn)
    ensures
        d == Direction::Forward ==> after_turn(d, turn) == d,
        (d == Direction::Left || d == Direction::Right) ==> after_forward(d) == d,
        (d == Direction::Left || d == Direction::Right) && d != turn_direction(turn) ==> after_turn(d, turn) == d,
{
}

/// Whatever the direction before, a tick whose acceleration cannot beat
/// friction leaves the robot at rest.
pub proof fn lemma_friction_stop(d: Direction)
    ensures
        after_tick(d, true) == Direction::Still,
{
}

} // verus!
