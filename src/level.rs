//! The entities a level is made of, as the level data describes them. A
//! field that the data leaves out takes its default: the origin for a
//! position, no rotation, and a one-unit square for a size. Rotations are
//! in thousandths of a radian.
use vstd::prelude::*;
use crate::geometry::{Vec2, UNIT};
use crate::movement::MoveController;

verus! {

/// The size of an entity whose data gives none: one unit square.
pub fn default_size() -> (r: Vec2)
    ensures
        r == (Vec2 { x: UNIT as i32, y: UNIT as i32 }),
{
    Vec2 { x: 1000, y: 1000 }
}

/// The origin, where an entity whose data gives no position stands.
pub fn default_position() -> (r: Vec2)
    ensures
        r == (Vec2 { x: 0, y: 0 }),
{
    Vec2 { x: 0, y: 0 }
}

/// Where the player starts, facing `rotation`.
#[derive(Clone, Copy, Debug, PartialEq, Eq, Structural)]
pub struct Player {
    pub position: Vec2,
    pub rotation: i32,
}

/// Where a pursuer starts, facing `rotation`.
#[derive(Clone, Copy, Debug, PartialEq, Eq, Structural)]
pub struct Zombie {
    pub position: Vec2,
    pub rotation: i32,
}

/// An access point.
#[derive(Clone, Copy, Debug, PartialEq, Eq, Structural)]
pub struct Wifi {
    pub position: Vec2,
}

/// A solid wall of the given size, turned by `rotation`.
#[derive(Clone, Copy, Debug, PartialEq, Eq, Structural)]
pub struct Wall {
    pub position: Vec2,
    pub size: Vec2,
    pub rotation: i32,
}

/// The area the level is played in.
#[derive(Clone, Copy, Debug, PartialEq, Eq, Structural)]
pub struct PlayableArea {
    pub position: Vec2,
    pub size: Vec2,
}

impl Player {
    /// A player at the origin, unturned.
    pub fn new() -> (r: Player)
        ensures
            r == (Player { position: Vec2 { x: 0, y: 0 }, rotation: 0 }),
    {
        Player { position: default_position(), rotation: 0 }
    }

    /// The movement controller a player is made with: the default one.
    pub fn move_controller() -> (r: MoveController)
        ensures
            r.wf(),
            r == (MoveController {
                target_speed: Vec2 { x: 0, y: 0 },
                max_speed: 10_000,
                impulse_exponent: 4,
                impulse_coefficient: 200_000,
            }),
    {
        MoveController::default()
    }
}

impl Zombie {
    /// A pursuer at the origin, unturned.
    pub fn new() -> (r: Zombie)
        ensures
            r == (Zombie { position: Vec2 { x: 0, y: 0 }, rotation: 0 }),
    {
        Zombie { position: default_position(), rotation: 0 }
    }

    /// The movement controller a pursuer is made with: a top speed of one
    /// unit per second and an impulse coefficient of 100 units per second
    /// squared, the rest as by default.
    pub fn move_controller() -> (r: MoveController)
        ensures
            r.wf(),
            r == (MoveController {
                target_speed: Vec2 { x: 0, y: 0 },
                max_speed: 1_000,
                impulse_exponent: 4,
                impulse_coefficient: 100_000,
            }),
    {
        let mut c = MoveController::default();
        c.max_speed = 1_000;
        c.impulse_coefficient = 100_000;
        c
    }
}

impl Wifi {
    /// An access point at the origin.
    pub fn new() -> (r: Wifi)
        ensures
            r == (Wifi { position: Vec2 { x: 0, y: 0 } }),
    {
        Wifi { position: default_position() }
    }
}

impl Wall {
    /// A one-unit square wall at the origin, unturned.
    pub fn new() -> (r: Wall)
        ensures
            r == (Wall { position: Vec2 { x: 0, y: 0 }, size: Vec2 { x: 1000, y: 1000 }, rotation: 0 }),
    {
        Wall { position: default_position(), size: default_size(), rotation: 0 }
    }
}

impl PlayableArea {
    /// A one-unit square area at the origin.
    pub fn new() -> (r: PlayableArea)
        ensures
            r == (PlayableArea { position: Vec2 { x: 0, y: 0 }, size: Vec2 { x: 1000, y: 1000 } }),
    {
        PlayableArea { position: default_position(), size: default_size() }
    }
}

} // verus!
