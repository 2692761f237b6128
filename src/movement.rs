//! Where the player stands, how the arrow keys move it, and where the player
//! sprite and the camera follow it.

use vstd::prelude::*;

verus! {

/// Distance that one key event moves the player.
pub const SPEED: i32 = 30;

/// Scan code of the right arrow key.
pub const SCAN_RIGHT: u32 = 124;

/// Scan code of the left arrow key.
pub const SCAN_LEFT: u32 = 123;

/// Scan code of the up arrow key.
pub const SCAN_UP: u32 = 126;

/// Scan code of the down arrow key.
pub const SCAN_DOWN: u32 = 125;

/// Offset of the player sprite from the player's location, on both axes.
pub const SPRITE_OFFSET: i64 = 50;

/// Depth at which the player sprite is spawned, above the whole level.
pub const PLAYER_DEPTH: i32 = 100;

/// A direction the player can be moved in.
#[derive(Clone, Copy, Debug, PartialEq, Eq, Structural)]
pub enum Direction {
    Right,
    Left,
    Up,
    Down,
}

/// The direction that a scan code moves the player in, if any.
pub open spec fn direction_spec(scan_code: u32) -> Option<Direction> {
    if scan_code == SCAN_RIGHT {
        Some(Direction::Right)
    } else if scan_code == SCAN_LEFT {
        Some(Direction::Left)
    } else if scan_code == SCAN_UP {
        Some(Direction::Up)
    } else if scan_code == SCAN_DOWN {
        Some(Direction::Down)
    } else {
        None
    }
}

/// Maps the four arrow keys' scan codes to their directions; every other
/// scan code moves nothing.
pub fn direction_of(scan_code: u32) -> (r: Option<Direction>)
    ensures
        r == direction_spec(scan_code),
{
    if scan_code == SCAN_RIGHT {
        Some(Direction::Right)
    } else if scan_code == SCAN_LEFT {
        Some(Direction::Left)
    } else if scan_code == SCAN_UP {
        Some(Direction::Up)
    } else if scan_code == SCAN_DOWN {
        Some(Direction::Down)
    } else {
        None
    }
}

/// `v` held to the range of `i32`.
pub open spec fn clamp_i32(v: int) -> i32 {
    if v > i32::MAX {
        i32::MAX
    } else if v < i32::MIN {
        i32::MIN
    } else {
        v as i32
    }
}

/// `a + b`, held to the range of `i32`.
fn add_clamped(a: i32, b: i32) -> (r: i32)
    ensures
        r == clamp_i32(a + b),
{
    if b >= 0 {
        if a > i32::MAX - b {
            i32::MAX
        } else {
            a + b
        }
    } else {
        if a < i32::MIN - b {
            i32::MIN
        } else {
            a + b
        }
    }
}

/// The player's position in the level's screen units.
#[derive(Clone, Copy, Debug, PartialEq, Eq, Structural)]
pub struct Location {
    pub x: i32,
    pub y: i32,
}

impl Location {
    /// The location one step in `direction` from this one. A coordinate that
    /// would leave the range of `i32` stays at its edge.
    pub open spec fn stepped(self, direction: Direction) -> Location {
        match direction {
            Direction::Right => Location { x: clamp_i32(self.x + SPEED), y: self.y },
            Direction::Left => Location { x: clamp_i32(self.x - SPEED), y: self.y },
            Direction::Up => Location { x: self.x, y: clamp_i32(self.y + SPEED) },
            Direction::Down => Location { x: self.x, y: clamp_i32(self.y - SPEED) },
        }
    }

    /// The location after the key event with `scan_code`.
    pub open spec fn after_scan_code(self, scan_code: u32) -> Location {
        match direction_spec(scan_code) {
            Some(direction) => self.stepped(direction),
            None => self,
        }
    }

    /// The location after the key events with `scan_codes`, in order.
    pub open spec fn after_scan_codes(self, scan_codes: Seq<u32>) -> Location
        decreases scan_codes.len(),
    {
        if scan_codes.len() == 0 {
            self
        } else {
            self.after_scan_codes(scan_codes.drop_last()).after_scan_code(scan_codes.last())
        }
    }

    /// Where the player starts.
    pub fn origin() -> (r: Location)
        ensures
            r.x == 0,
            r.y == 0,
    {
        Location { x: 0, y: 0 }
    }

    /// Moves one step in `direction`.
    pub fn step(&mut self, direction: Direction)
        ensures
            *final(self) == old(self).stepped(direction),
    {
        match direction {
            Direction::Right => self.x = add_clamped(self.x, SPEED),
            Direction::Left => self.x = add_clamped(self.x, -SPEED),
            Direction::Up => self.y = add_clamped(self.y, SPEED),
            Direction::Down => self.y = add_clamped(self.y, -SPEED),
        }
    }

    /// Handles one key event: an arrow key moves one step its way, any other
    /// key leaves the location as it is.
    pub fn apply_scan_code(&mut self, scan_code: u32)
        ensures
            *final(self) == old(self).after_scan_code(scan_code),
    {
        match direction_of(scan_code) {
            Some(direction) => self.step(direction),
            None => {},
        }
    }

    /// Handles the key events of one frame, in the order they came.
    pub fn apply_scan_codes(&mut self, scan_codes: &[u32])
        ensures
            *final(self) == old(self).after_scan_codes(scan_codes@),
    {
        let ghost start: Location = *self;
        for i in 0..scan_codes.len()
            invariant
                *self == start.after_scan_codes(scan_codes@.take(i as int)),
        {
            proof {
                assert(scan_codes@.take(i + 1).drop_last() =~= scan_codes@.take(i as int));
            }
            self.apply_scan_code(scan_codes[i]);
        }
        proof {
            assert(scan_codes@.take(scan_codes@.len() as int) =~= scan_codes@);
        }
    }

    /// Where the player sprite is drawn: offset from the location on both axes.
    pub fn sprite_translation(&self) -> (r: (i64, i64))
        ensures
            r.0 == self.x + SPRITE_OFFSET,
            r.1 == self.y + SPRITE_OFFSET,
    {
        (self.x as i64 + SPRITE_OFFSET, self.y as i64 + SPRITE_OFFSET)
    }

    /// Where the player sprite is first placed: on the location, above the level.
    pub fn spawn_translation(&self) -> (r: (i32, i32, i32))
        ensures
            r == (self.x, self.y, PLAYER_DEPTH),
    {
        (self.x, self.y, PLAYER_DEPTH)
    }

    /// Where the camera is centred: on the location itself.
    pub fn camera_translation(&self) -> (r: (i32, i32))
        ensures
            r == (self.x, self.y),
    {
        (self.x, self.y)
    }
}

} // verus!
