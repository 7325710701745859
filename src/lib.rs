//! Simulation core of a top-down pursuit game: movement control, contact
//! tracking, input aggregation, wireless signal and download state, grabbing,
//! pursuit steering and the exit door, all in fixed-point integers.
use vstd::prelude::*;

pub mod collision;
pub mod contacts;
pub mod door;
pub mod geometry;
pub mod grab;
pub mod input;
pub mod level;
pub mod movement;
pub mod steering;
pub mod timing;
pub mod wifi;

pub use crate::door::DoorStatus;
pub use crate::grab::GrabStatus;
pub use crate::input::PlayerControl;
pub use crate::level::{PlayableArea, Player, Wall, Wifi, Zombie};
pub use crate::movement::MoveController;
pub use crate::wifi::{DownloadProgress, WifiClient};

verus! {

} // verus!
