//! Input resolution: several devices, each giving at most one value per
//! axis, are combined into one target speed; gamepads join and leave as
//! they are connected and disconnected.
use vstd::prelude::*;
use crate::geometry::{Vec2, UNIT, WIDE_LIMIT, div_toward_zero, norm_sq, normalized, normalize, within_unit};

verus! {

/// What one device gives this tick: a value per axis, in steps of
/// `1 / UNIT` (full deflection is `UNIT`), or `None` where the control is
/// released.
#[derive(Clone, Copy, Debug, PartialEq, Eq, Structural)]
pub struct DeviceInput {
    pub horizontal: Option<i32>,
    pub vertical: Option<i32>,
}

/// The value an axis contributes: zero when released.
pub open spec fn contribution(a: Option<i32>) -> int {
    match a {
        Some(v) => v as int,
        None => 0,
    }
}

/// A device takes part when it gives a nonzero value on either axis.
pub open spec fn participates(d: DeviceInput) -> bool {
    contribution(d.horizontal) != 0 || contribution(d.vertical) != 0
}

/// Sum of the horizontal values of the devices.
pub open spec fn sum_horizontal(ds: Seq<DeviceInput>) -> int
    decreases ds.len(),
{
    if ds.len() == 0 { 0 } else { sum_horizontal(ds.drop_last()) + contribution(ds.last().horizontal) }
}

/// Sum of the vertical values of the devices.
pub open spec fn sum_vertical(ds: Seq<DeviceInput>) -> int
    decreases ds.len(),
{
    if ds.len() == 0 { 0 } else { sum_vertical(ds.drop_last()) + contribution(ds.last().vertical) }
}

/// Number of devices that take part.
pub open spec fn participants(ds: Seq<DeviceInput>) -> int
    decreases ds.len(),
{
    if ds.len() == 0 { 0 } else { participants(ds.drop_last()) + if participates(ds.last()) { 1int } else { 0 } }
}

/// The combined target speed: the average over the devices that take part
/// of their values, rounded toward zero, and scaled down to magnitude one
/// where it is longer.
pub open spec fn combined_target(ds: Seq<DeviceInput>) -> Vec2 {
    let n = participants(ds);
    if n == 0 {
        Vec2 { x: 0, y: 0 }
    } else {
        let ax = div_toward_zero(sum_horizontal(ds), n);
        let ay = div_toward_zero(sum_vertical(ds), n);
        if norm_sq(ax, ay) > UNIT * UNIT {
            Vec2 { x: normalized(ax, ay).0 as i32, y: normalized(ax, ay).1 as i32 }
        } else {
            Vec2 { x: ax as i32, y: ay as i32 }
        }
    }
}

/// `a / n` rounded toward zero, for `n > 0`.
fn average(a: i128, n: u64) -> (r: i64)
    requires
        n > 0,
        -0x8000_0000 * n <= a <= 0x8000_0000 * n,
    ensures
        r == div_toward_zero(a as int, n as int),
        -0x8000_0000 <= r <= 0x8000_0000,
{
    let m: i128 = n as i128;
    if a < 0 {
        let q: i128 = (-a) / m;
        assert(q <= 0x8000_0000) by (nonlinear_arith) requires q == (-(a as int)) / (m as int), -a <= 0x8000_0000 * m, m > 0;
        -(q as i64)
    } else {
        let q: i128 = a / m;
        assert(q <= 0x8000_0000) by (nonlinear_arith) requires q == (a as int) / (m as int), a <= 0x8000_0000 * m, m > 0, a >= 0;
        q as i64
    }
}

/// Combines this tick's device inputs into the target speed of the players.
pub fn control_player(devices: &Vec<DeviceInput>) -> (r: Vec2)
    ensures
        r == combined_target(devices@),
        within_unit(r),
{
    let mut sx: i128 = 0;
    let mut sy: i128 = 0;
    let mut n: u64 = 0;
    let mut i: usize = 0;
    while i < devices.len()
        invariant
            i <= devices@.len(),
            n <= i,
            sx == sum_horizontal(devices@.subrange(0, i as int)),
            sy == sum_vertical(devices@.subrange(0, i as int)),
            n == participants(devices@.subrange(0, i as int)),
            -0x8000_0000 * n <= sx <= 0x8000_0000 * n,
            -0x8000_0000 * n <= sy <= 0x8000_0000 * n,
        decreases devices@.len() - i,
    {
        let d = devices[i];
        let h: i128 = match d.horizontal {
            Some(v) => v as i128,
            None => 0,
        };
        let v: i128 = match d.vertical {
            Some(v) => v as i128,
            None => 0,
        };
        assert(devices@.subrange(0, i + 1).drop_last() =~= devices@.subrange(0, i as int));
        if h != 0 || v != 0 {
            sx = sx + h;
            sy = sy + v;
            n = n + 1;
        }
        i += 1;
    }
    assert(devices@.subrange(0, devices@.len() as int) =~= devices@);
    if n == 0 {
        return Vec2 { x: 0, y: 0 };
    }
    let ax = average(sx, n);
    let ay = average(sy, n);
    let lx: i128 = ax as i128;
    let ly: i128 = ay as i128;
    assert(0 <= lx * lx <= 0x4000_0000_0000_0000 && 0 <= ly * ly <= 0x4000_0000_0000_0000) by (nonlinear_arith)
        requires -0x8000_0000 <= lx <= 0x8000_0000, -0x8000_0000 <= ly <= 0x8000_0000;
    if lx * lx + ly * ly > 1_000_000 {
        normalize(ax, ay)
    } else {
        assert(-1000 <= lx <= 1000 && -1000 <= ly <= 1000) by (nonlinear_arith)
            requires lx * lx + ly * ly <= 1_000_000, 0 <= lx * lx, 0 <= ly * ly;
        Vec2 { x: ax as i32, y: ay as i32 }
    }
}

/// Dead zone of a gamepad's sticks on each axis, in steps of `1 / UNIT`.
pub const GAMEPAD_DEAD_ZONE: i32 = 250;

/// A change in the connected gamepads, each named by its id.
#[derive(Clone, Copy, Debug, PartialEq, Eq, Structural)]
pub enum GamepadEvent {
    Connected { gamepad: u64 },
    Disconnected { gamepad: u64 },
    /// Any other gamepad event, which does not change the registry.
    Other { gamepad: u64 },
}

/// What the registry asks of the input layer after an event.
#[derive(Clone, Copy, Debug, PartialEq, Eq, Structural)]
pub enum GamepadAction {
    Nothing,
    /// Start reading this gamepad, with a dead zone of
    /// `GAMEPAD_DEAD_ZONE` on both axes.
    Register { gamepad: u64 },
    /// Stop reading this gamepad.
    Unregister { gamepad: u64 },
}

/// The gamepads whose input is read, each once, in order of connection.
pub struct GamepadRegistry {
    pads: Vec<u64>,
}

impl View for GamepadRegistry {
    type V = Seq<u64>;

    closed spec fn view(&self) -> Seq<u64> {
        self.pads@
    }
}

impl GamepadRegistry {
    /// No gamepad is listed twice.
    pub open spec fn wf(&self) -> bool {
        self@.no_duplicates()
    }

    /// A registry with no gamepad.
    pub fn new() -> (r: GamepadRegistry)
        ensures
            r@ == Seq::<u64>::empty(),
            r.wf(),
    {
        GamepadRegistry { pads: Vec::new() }
    }

    /// Where `g` stands in the registry, if it is there.
    pub fn position(&self, g: u64) -> (r: Option<usize>)
        ensures
            r is None ==> !self@.contains(g),
            r is Some ==> r->0 < self@.len() && self@[r->0 as int] == g,
    {
        let mut i: usize = 0;
        while i < self.pads.len()
            invariant
                i <= self@.len(),
                self@ == self.pads@,
                forall|j: int| 0 <= j < i ==> self@[j] != g,
            decreases self@.len() - i,
        {
            if self.pads[i] == g {
                return Some(i);
            }
            i += 1;
        }
        None
    }

    /// The gamepads that are read, in order of connection.
    pub fn gamepads(&self) -> (r: Vec<u64>)
        ensures
            r@ == self@,
    {
        self.pads.clone()
    }

    /// Updates the registry for one event: a connected gamepad is added
    /// unless already there, a disconnected one is removed.
    pub fn handle_gamepad_event(&mut self, ev: GamepadEvent) -> (r: GamepadAction)
        requires
            old(self).wf(),
        ensures
            final(self).wf(),
            match ev {
                GamepadEvent::Connected { gamepad } => if old(self)@.contains(gamepad) {
                    final(self)@ == old(self)@ && r == GamepadAction::Nothing
                } else {
                    final(self)@ == old(self)@.push(gamepad) && r == (GamepadAction::Register { gamepad })
                },
                GamepadEvent::Disconnected { gamepad } => if old(self)@.contains(gamepad) {
                    (exists|i: int| 0 <= i < old(self)@.len() && old(self)@[i] == gamepad
                        && final(self)@ == old(self)@.remove(i))
                        && !final(self)@.contains(gamepad)
                        && r == (GamepadAction::Unregister { gamepad })
                } else {
                    final(self)@ == old(self)@ && r == GamepadAction::Nothing
                },
                GamepadEvent::Other { .. } => final(self)@ == old(self)@ && r == GamepadAction::Nothing,
            },
    {
        match ev {
            GamepadEvent::Connected { gamepad } => {
                match self.position(gamepad) {
                    Some(_) => GamepadAction::Nothing,
                    None => {
                        self.pads.push(gamepad);
                        GamepadAction::Register { gamepad }
                    },
                }
            },
            GamepadEvent::Disconnected { gamepad } => {
                match self.position(gamepad) {
                    Some(i) => {
                        self.pads.remove(i);
                        assert(!self@.contains(gamepad)) by {
                            if self@.contains(gamepad) {
                                let k = choose|k: int| 0 <= k < self@.len() && self@[k] == gamepad;
                                if k < i {
                                    assert(old(self)@[k] == gamepad);
                                } else {
                                    assert(old(self)@[k + 1] == gamepad);
                                }
                            }
                        }
                        GamepadAction::Unregister { gamepad }
                    },
                    None => GamepadAction::Nothing,
                }
            },
            GamepadEvent::Other { .. } => GamepadAction::Nothing,
        }
    }
}

/// Per-player control state: whether a jump is under way, the normal of
/// the ground last stood on, and how much standing there is worth.
#[derive(Clone, Copy, Debug, PartialEq, Eq, Structural)]
pub struct PlayerControl {
    pub mid_jump: bool,
    pub last_stood_on: Vec2,
    pub stood_on_potential: i64,
}

impl PlayerControl {
    /// Control state at rest: no jump, standing on level ground.
    pub fn new() -> (r: PlayerControl)
        ensures
            r == (PlayerControl { mid_jump: false, last_stood_on: Vec2 { x: 0, y: UNIT as i32 }, stood_on_potential: 0 }),
    {
        PlayerControl { mid_jump: false, last_stood_on: Vec2 { x: 0, y: 1000 }, stood_on_potential: 0 }
    }
}

} // verus!
