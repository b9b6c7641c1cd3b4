//! The component data model: plain records that entities carry.

use vstd::prelude::*;

verus! {

/// One of the four movement / facing directions.
#[derive(Clone, Copy, Debug, PartialEq, Eq, Structural)]
pub enum Direction {
    Up,
    Down,
    Left,
    Right,
}

/// A point in pixel space.
#[derive(Clone, Copy, Debug, PartialEq, Eq, Structural)]
pub struct Point {
    pub x: i32,
    pub y: i32,
}

/// An axis-aligned rectangle: top-left corner plus size.
#[derive(Clone, Copy, Debug, PartialEq, Eq, Structural)]
pub struct Rect {
    pub x: i32,
    pub y: i32,
    pub width: u32,
    pub height: u32,
}

/// An RGB color.
#[derive(Clone, Copy, Debug, PartialEq, Eq, Structural)]
pub struct Color {
    pub r: u8,
    pub g: u8,
    pub b: u8,
}

/// Where an entity stands, in world pixel coordinates.
#[derive(Clone, Copy, Debug, PartialEq, Eq, Structural)]
pub struct Position(pub Point);

/// How fast an entity moves, and which way it faces.
///
/// A speed of 0 means the entity is stationary this frame.
#[derive(Clone, Copy, Debug, PartialEq, Eq, Structural)]
pub struct Velocity {
    pub speed: i32,
    pub direction: Direction,
}

/// The drawable sub-rectangle of a sprite sheet.
#[derive(Clone, Copy, Debug, PartialEq, Eq, Structural)]
pub struct Sprite {
    /// Index of the sprite sheet the region is cut from.
    pub sprite_sheet: usize,
    /// The source region inside that sheet.
    pub region: Rect,
}

/// A walking animation: one fixed-length frame sequence per direction,
/// plus the index of the frame currently shown.
#[derive(Debug)]
pub struct MovementAnimation {
    pub current_frame: i32,
    pub up_frames: Vec<Sprite>,
    pub down_frames: Vec<Sprite>,
    pub left_frames: Vec<Sprite>,
    pub right_frames: Vec<Sprite>,
}

/// Every direction's frame sequence has exactly this many frames.
pub const FRAMES_PER_DIRECTION: usize = 3;

impl MovementAnimation {
    /// The structural invariant: all four sequences hold exactly
    /// `FRAMES_PER_DIRECTION` frames and the current index points at one
    /// of them.
    pub open spec fn wf(self) -> bool {
        &&& self.up_frames@.len() == FRAMES_PER_DIRECTION
        &&& self.down_frames@.len() == FRAMES_PER_DIRECTION
        &&& self.left_frames@.len() == FRAMES_PER_DIRECTION
        &&& self.right_frames@.len() == FRAMES_PER_DIRECTION
        &&& 0 <= self.current_frame < FRAMES_PER_DIRECTION
    }

    /// The frame sequence used while moving in direction `d`.
    pub open spec fn frames_for(self, d: Direction) -> Seq<Sprite> {
        match d {
            Direction::Left => self.left_frames@,
            Direction::Right => self.right_frames@,
            Direction::Up => self.up_frames@,
            Direction::Down => self.down_frames@,
        }
    }
}

/// A self-contained record of one movable character, as the earliest
/// variant of the data model kept it before it was split into components.
#[derive(Debug)]
pub struct Player {
    pub position: Point,
    pub sprite: Rect,
    pub speed: i32,
    pub direction: Direction,
    pub current_frame: i32,
}

} // verus!
