//! The player: movement and jumping, the gun, and the lasers it fires.
use vstd::prelude::*;
use crate::timer::{total_time, Timer};
use crate::units::{abs, Coord, UNIT};

verus! {

/// Horizontal speed, in units per second.
pub const PLAYER_SPEED: u64 = 100;

/// Upward velocity set by a jump, in millionths of a unit per second.
pub const PLAYER_JUMP_FORCE: i64 = 200 * UNIT;

/// Hit points the player starts with.
pub const PLAYER_HEALTH: u8 = 5;

/// Time between two shots, in microseconds.
pub const GUN_COOLDOWN: u64 = 100_000;

/// Laser speed, in units per second.
pub const GUN_TRAVEL_SPEED: u64 = 300;

/// A laser farther than this from the centre, horizontally, is gone.
pub const LASER_LIMIT_X: Coord = 180 * UNIT;

/// A laser farther than this from the centre, vertically, is gone.
pub const LASER_LIMIT_Y: Coord = 100 * UNIT;

/// Horizontal distance from the player to the gun it holds.
pub const GUN_OFFSET_X: Coord = 7_500_000;

/// Height of a new laser above the gun's nozzle.
pub const LASER_SPAWN_RISE: Coord = UNIT;

/// Length of one frame of the run animation, in microseconds.
pub const RUN_FRAME_PERIOD: u64 = 100_000;

/// Frames of the run animation.
pub const RUN_FRAMES: u64 = 5;

/// Sprite while rising.
pub const JUMP_UP_SPRITE: u64 = 6;

/// Sprite while falling.
pub const JUMP_DOWN_SPRITE: u64 = 7;

#[derive(Clone, Copy, Debug, PartialEq, Eq, Structural)]
pub enum PlayerAnimState {
    Idle,
    Run,
    Jump,
}

#[derive(Clone, Copy, Debug, PartialEq, Eq, Structural)]
pub struct Player {
    /// Horizontal speed, in units per second.
    pub speed: u64,
    /// Upward velocity of a jump, in millionths of a unit per second.
    pub jump_force: i64,
    /// Derived anew on every tick from input, grounding and velocity.
    pub anim_state: PlayerAnimState,
}

/// Gravity multiplier of the player's body: the baseline, or the heavier fall.
#[derive(Clone, Copy, Debug, PartialEq, Eq, Structural)]
pub enum GravityScale {
    Normal,
    Heavy,
}

/// The keys held in one tick.
#[derive(Clone, Copy, Debug, PartialEq, Eq, Structural)]
pub struct ControlInput {
    pub right: bool,
    pub left: bool,
    pub up: bool,
    pub down: bool,
    pub fire: bool,
}

/// What one tick of the controller asks of the player's body and sprite.
#[derive(Clone, Copy, Debug, PartialEq, Eq, Structural)]
pub struct Movement {
    /// Horizontal displacement, added to the position.
    pub delta_x: Coord,
    /// New mirroring of the sprite, when the player moves.
    pub flip_x: Option<bool>,
    /// Upward velocity of a jump; the horizontal velocity becomes zero.
    pub jump_velocity: Option<i64>,
    /// Gravity multiplier for this tick: heavier while falling in the air,
    /// the baseline otherwise.
    pub gravity: GravityScale,
}

#[derive(Clone, Copy, Debug, PartialEq, Eq, Structural)]
pub enum Dir {
    Left,
    Right,
    Down,
}

#[derive(Clone, Copy, Debug, PartialEq, Eq, Structural)]
pub struct Laser {
    pub direction: Dir,
}

/// A laser leaving the gun.
#[derive(Clone, Copy, Debug, PartialEq, Eq, Structural)]
pub struct Shot {
    pub laser: Laser,
    /// Rotation of the laser's sprite, in degrees.
    pub rotation: i64,
    /// A laser fired downward is a ground surface too.
    pub grounding: bool,
}

#[derive(Clone, Copy, Debug, PartialEq, Eq, Structural)]
pub struct Gun {
    /// Repeating; a shot leaves on a tick that completes it.
    pub timer: Timer,
}

/// What one tick of the gun asks of its sprite and of the world.
#[derive(Clone, Copy, Debug, PartialEq, Eq, Structural)]
pub struct GunUpdate {
    pub sprite_index: u64,
    /// Rotation of the gun, in degrees.
    pub rotation: i64,
    pub shot: Option<Shot>,
}

/// Where a laser is after one tick, and whether it has left the arena.
#[derive(Clone, Copy, Debug, PartialEq, Eq, Structural)]
pub struct Travel {
    pub x: Coord,
    pub y: Coord,
    pub expired: bool,
}

pub open spec fn wants_jump(input: ControlInput) -> bool {
    input.up || (input.down && input.fire)
}

pub open spec fn horizontal_step(speed: nat, input: ControlInput, delta: nat) -> int {
    (if input.right {
        speed * delta
    } else {
        0
    }) - (if input.left {
        speed * delta
    } else {
        0
    })
}

pub open spec fn anim_for(delta_x: int, grounded: bool) -> PlayerAnimState {
    if !grounded {
        PlayerAnimState::Jump
    } else if delta_x != 0 {
        PlayerAnimState::Run
    } else {
        PlayerAnimState::Idle
    }
}

pub open spec fn gravity_for(grounded: bool, vy: int) -> GravityScale {
    if !grounded && vy < 0 {
        GravityScale::Heavy
    } else {
        GravityScale::Normal
    }
}

pub open spec fn movement_for(
    p: Player,
    input: ControlInput,
    grounded: bool,
    vy: int,
    delta: nat,
) -> Movement {
    let dx = horizontal_step(p.speed as nat, input, delta);
    Movement {
        delta_x: dx as Coord,
        flip_x: if dx != 0 {
            Some(dx < 0)
        } else {
            None
        },
        jump_velocity: if grounded && wants_jump(input) {
            Some(p.jump_force)
        } else {
            None
        },
        gravity: gravity_for(grounded, vy),
    }
}

pub open spec fn sprite_index_for(anim: PlayerAnimState, since_startup: nat, vy: int) -> nat {
    match anim {
        PlayerAnimState::Idle => 0,
        PlayerAnimState::Run => (since_startup / 100_000) % 5 + 1,
        PlayerAnimState::Jump => if vy >= 0 {
            6
        } else {
            7
        },
    }
}

/// Sprite of the player for its animation state, the time since startup
/// (microseconds) and its vertical velocity.
pub fn player_sprite_index(anim: PlayerAnimState, since_startup: u64, vy: i64) -> (r: u64)
    ensures
        r == sprite_index_for(anim, since_startup as nat, vy as int),
{
    match anim {
        PlayerAnimState::Idle => 0,
        PlayerAnimState::Run => (since_startup / RUN_FRAME_PERIOD) % RUN_FRAMES + 1,
        PlayerAnimState::Jump => if vy >= 0 {
            JUMP_UP_SPRITE
        } else {
            JUMP_DOWN_SPRITE
        },
    }
}

/// Horizontal position of the gun relative to the player, on the side the
/// player faces.
pub fn gun_offset_x(flip_x: bool) -> (r: Coord)
    ensures
        r == if flip_x {
            -GUN_OFFSET_X
        } else {
            GUN_OFFSET_X as int
        },
{
    if flip_x {
        -GUN_OFFSET_X
    } else {
        GUN_OFFSET_X
    }
}

impl Player {
    pub fn new() -> (r: Player)
        ensures
            r.speed == PLAYER_SPEED,
            r.jump_force == PLAYER_JUMP_FORCE,
            r.anim_state == PlayerAnimState::Idle,
    {
        Player { speed: PLAYER_SPEED, jump_force: PLAYER_JUMP_FORCE, anim_state: PlayerAnimState::Idle }
    }

    /// One tick of the controller: the keys held, whether the player stands
    /// on ground, its vertical velocity and the elapsed microseconds give the
    /// horizontal displacement, the jump, the gravity and the animation state.
    /// A jump is asked for on every grounded tick with the jump keys held;
    /// one jump per key press is left to the caller.
    pub fn control(&mut self, input: ControlInput, grounded: bool, vy: i64, delta: u64) -> (r:
        Movement)
        requires
            old(self).speed * delta <= i64::MAX,
        ensures
            r == movement_for(*old(self), input, grounded, vy as int, delta as nat),
            *final(self) == (Player {
                anim_state: anim_for(r.delta_x as int, grounded),
                ..*old(self)
            }),
    {
        let step = (self.speed * delta) as i64;
        let mut delta_x: i64 = 0;
        if input.right {
            delta_x = delta_x + step;
        }
        if input.left {
            delta_x = delta_x - step;
        }
        let flip_x = if delta_x != 0 {
            Some(delta_x < 0)
        } else {
            None
        };
        self.anim_state = if !grounded {
            PlayerAnimState::Jump
        } else if delta_x != 0 {
            PlayerAnimState::Run
        } else {
            PlayerAnimState::Idle
        };
        let jump = input.up || (input.down && input.fire);
        let jump_velocity = if grounded && jump {
            Some(self.jump_force)
        } else {
            None
        };
        let gravity = if !grounded && vy < 0 {
            GravityScale::Heavy
        } else {
            GravityScale::Normal
        };
        Movement { delta_x, flip_x, jump_velocity, gravity }
    }
}

pub open spec fn shot_for(holding_down: bool, flip_x: bool) -> Shot {
    Shot {
        laser: Laser {
            direction: if holding_down {
                Dir::Down
            } else if flip_x {
                Dir::Left
            } else {
                Dir::Right
            },
        },
        rotation: if holding_down {
            90
        } else {
            0
        },
        grounding: holding_down,
    }
}

pub open spec fn gun_rotation_for(holding_down: bool, flip_x: bool) -> int {
    if !holding_down {
        0
    } else if flip_x {
        90
    } else {
        -90
    }
}

impl Gun {
    pub open spec fn wf(self) -> bool {
        self.timer.wf()
    }

    pub fn new() -> (r: Gun)
        ensures
            r.wf(),
            r.timer.is_fresh(),
            r.timer.duration == GUN_COOLDOWN,
            r.timer.repeating,
    {
        Gun { timer: Timer::new(GUN_COOLDOWN, true) }
    }

    /// One tick of the gun: it points down while `holding_down`, and fires
    /// when `fire` is held on a tick that completes its cooldown.
    pub fn update(&mut self, holding_down: bool, fire: bool, flip_x: bool, delta: u64) -> (r:
        GunUpdate)
        requires
            old(self).wf(),
        ensures
            final(self).wf(),
            final(self).timer == old(self).timer.ticked(delta as nat),
            r.rotation == gun_rotation_for(holding_down, flip_x),
            r.shot == if final(self).timer.times_finished > 0 && fire {
                Some(shot_for(holding_down, flip_x))
            } else {
                None
            },
            r.sprite_index == if r.shot is Some {
                1u64
            } else {
                0
            },
    {
        self.timer.tick(delta);
        let rotation: i64 = if !holding_down {
            0
        } else if flip_x {
            90
        } else {
            -90
        };
        if self.timer.just_finished() && fire {
            let direction = if holding_down {
                Dir::Down
            } else if flip_x {
                Dir::Left
            } else {
                Dir::Right
            };
            let shot = Shot {
                laser: Laser { direction },
                rotation: if holding_down {
                    90
                } else {
                    0
                },
                grounding: holding_down,
            };
            GunUpdate { sprite_index: 1, rotation, shot: Some(shot) }
        } else {
            GunUpdate { sprite_index: 0, rotation, shot: None }
        }
    }
}

/// Velocity of a laser flying in `dir`, in units per second.
pub open spec fn laser_velocity(dir: Dir) -> (int, int) {
    match dir {
        Dir::Left => (-(GUN_TRAVEL_SPEED as int), 0),
        Dir::Right => (GUN_TRAVEL_SPEED as int, 0),
        Dir::Down => (0, -(GUN_TRAVEL_SPEED as int)),
    }
}

/// Position of a laser flying in `dir` after `delta` microseconds.
pub open spec fn laser_moved(dir: Dir, x: int, y: int, delta: nat) -> (int, int) {
    (x + laser_velocity(dir).0 * delta, y + laser_velocity(dir).1 * delta)
}

pub open spec fn out_of_arena(x: int, y: int) -> bool {
    abs(x) > LASER_LIMIT_X || abs(y) > LASER_LIMIT_Y
}

/// Position of a laser after a run of ticks of flight.
pub open spec fn flight(dir: Dir, x: int, y: int, deltas: Seq<u64>) -> (int, int)
    decreases deltas.len(),
{
    if deltas.len() == 0 {
        (x, y)
    } else {
        let p = flight(dir, x, y, deltas.drop_last());
        laser_moved(dir, p.0, p.1, deltas.last() as nat)
    }
}

/// A laser fired sideways is, after ticks that add up to a time `t`, at
/// `x` plus or minus the laser speed times `t`, at its starting height.
pub proof fn lemma_horizontal_flight(dir: Dir, x: int, y: int, deltas: Seq<u64>)
    requires
        dir != Dir::Down,
    ensures
        flight(dir, x, y, deltas) == (x + laser_velocity(dir).0 * total_time(deltas), y),
        dir == Dir::Right ==> flight(dir, x, y, deltas).0 == x + GUN_TRAVEL_SPEED * total_time(deltas),
        dir == Dir::Left ==> flight(dir, x, y, deltas).0 == x - GUN_TRAVEL_SPEED * total_time(deltas),
    decreases deltas.len(),
{
    let v = laser_velocity(dir).0;
    assert(laser_velocity(dir).1 == 0);
    if deltas.len() > 0 {
        let rest = deltas.drop_last();
        lemma_horizontal_flight(dir, x, y, rest);
        let t = total_time(rest);
        let d = deltas.last() as int;
        assert(v * t + v * d == v * (t + d)) by (nonlinear_arith);
        assert(0 * d == 0);
    }
    let total = total_time(deltas) as int;
    if dir == Dir::Left {
        assert(v * total == -(300 * total)) by (nonlinear_arith)
            requires v == -300;
    }
}

impl Laser {
    /// One tick of flight from (`x`, `y`); the laser expires once outside the arena.
    pub fn travel(&self, x: Coord, y: Coord, delta: u64) -> (r: Travel)
        requires
            i64::MIN <= laser_moved(self.direction, x as int, y as int, delta as nat).0 <= i64::MAX,
            i64::MIN <= laser_moved(self.direction, x as int, y as int, delta as nat).1 <= i64::MAX,
        ensures
            (r.x as int, r.y as int) == laser_moved(self.direction, x as int, y as int, delta as nat),
            r.expired == out_of_arena(r.x as int, r.y as int),
    {
        proof {
            assert(0 <= 300 * (delta as int) <= 300 * (u64::MAX as int)) by (nonlinear_arith);
        }
        let step = GUN_TRAVEL_SPEED as i128 * delta as i128;
        let (nx, ny) = match self.direction {
            Dir::Left => (x as i128 - step, y as i128),
            Dir::Right => (x as i128 + step, y as i128),
            Dir::Down => (x as i128, y as i128 - step),
        };
        proof {
            let m = laser_moved(self.direction, x as int, y as int, delta as nat);
            assert((-300) * (delta as int) == -(300 * (delta as int))) by (nonlinear_arith);
            assert(0 * (delta as int) == 0);
            assert(m == (nx as int, ny as int));
        }
        let nx = nx as i64;
        let ny = ny as i64;
        let expired = nx < -LASER_LIMIT_X || nx > LASER_LIMIT_X || ny < -LASER_LIMIT_Y || ny
            > LASER_LIMIT_Y;
        Travel { x: nx, y: ny, expired }
    }
}

} // verus!
