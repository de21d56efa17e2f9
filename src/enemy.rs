//! The roaming enemy: its Idle / Move / Attack cycle, its beam, its facing.
use vstd::prelude::*;
use crate::random::random_in;
use crate::timer::Timer;
use crate::physics::EntityId;
use crate::units::{abs, sign, Coord, UNIT};

verus! {

/// Roaming enemies that enter the arena when play starts.
pub const ENEMY_ONE_COUNT: u64 = 5;

/// Hit points an enemy spawns with.
pub const ENEMY_ONE_HEALTH: u8 = 5;

/// Base cooldown between two attacks, in microseconds.
pub const ENEMY_ONE_COOLDOWN: u64 = 4_000_000;

/// Largest random deviation from the base cooldown, in microseconds.
pub const ENEMY_ONE_COOLDOWN_VAR: u64 = 1_000_000;

/// Vertical tracking speed, in units per second.
pub const ENEMY_ONE_SPEED: u64 = 70;

/// Lifetime of a beam, in microseconds.
pub const ENEMY_ONE_BEAM: u64 = 600_000;

/// Length of one frame of the shared animation clock, in microseconds.
pub const FRAME_PERIOD: u64 = 100_000;

/// Frames in one cycle of the shared animation clock.
pub const CYCLE_FRAMES: u64 = 7;

/// Clock frame on which an attack ends.
pub const ATTACK_END_FRAME: u64 = 6;

/// First sprite of the attack animation.
pub const ATTACK_FIRST_SPRITE: u64 = 7;

/// Last sprite of the attack animation.
pub const ATTACK_LAST_SPRITE: u64 = 11;

/// Sprite of the attack animation on which the beam appears.
pub const BEAM_SPRITE: u64 = 10;

/// Horizontal distance from the enemy to the centre of its beam.
pub const BEAM_OFFSET_X: Coord = 175 * UNIT;

/// Height of the beam's centre above the enemy.
pub const BEAM_OFFSET_Y: Coord = 1_500_000;

/// Half extents of the beam's trigger volume.
pub const BEAM_HALF_WIDTH: Coord = 167 * UNIT;
pub const BEAM_HALF_HEIGHT: Coord = 3 * UNIT;

/// Upward bob on the first frames of the idle / move animation.
pub const BOB_RISE: Coord = 500_000;

/// Downward bob on the later frames of the idle / move animation.
pub const BOB_FALL: Coord = 200_000;

/// Vertical distance to the player under which a moving enemy stops.
pub const ALIGN_TOLERANCE: Coord = UNIT;

/// Half extents of the area in which enemies spawn.
pub const SPAWN_HALF_WIDTH: Coord = 150 * UNIT;
pub const SPAWN_HALF_HEIGHT: Coord = 60 * UNIT;

/// Which way a sprite looks.
#[derive(Clone, Copy, Debug, PartialEq, Eq, Structural)]
pub enum Facing {
    Left,
    Right,
}

#[derive(Clone, Copy, Debug, PartialEq, Eq, Structural)]
pub enum EnemyOneState {
    Idle,
    Move,
    Attack,
}

#[derive(Clone, Copy, Debug, PartialEq, Eq, Structural)]
pub struct EnemyOne {
    pub state: EnemyOneState,
    /// Runs down between attacks; re-armed when an attack ends.
    pub attack_cooldown: Timer,
    /// Whether the current attack has fired its beam; cleared when an attack starts.
    pub beam_fired: bool,
}

/// One tick of either system that drives an enemy: the animation clock,
/// or the vertical tracking of the player.
#[derive(Clone, Copy, Debug, PartialEq, Eq, Structural)]
pub enum EnemyStep {
    Animate { frame: u64, delta: u64, jitter: i64 },
    Track { y: Coord, player_y: Coord },
}

/// Where a beam appears, relative to the enemy that fires it.
#[derive(Clone, Copy, Debug, PartialEq, Eq, Structural)]
pub struct BeamSpawn {
    pub offset_x: Coord,
    pub offset_y: Coord,
}

/// What one animation tick asks of the enemy's sprite and position.
#[derive(Clone, Copy, Debug, PartialEq, Eq, Structural)]
pub struct EnemyFrame {
    pub sprite_index: u64,
    /// Vertical displacement of the bob, added to the position.
    pub bob: Coord,
    pub beam: Option<BeamSpawn>,
}

/// A beam: a short-lived hazard volume.
#[derive(Clone, Copy, Debug, PartialEq, Eq, Structural)]
pub struct Beam {
    pub timer: Timer,
}

/// One side of a contact that began, with the roles a laser hit needs.
#[derive(Clone, Copy, Debug, PartialEq, Eq, Structural)]
pub struct Participant {
    pub id: EntityId,
    /// Can be hurt by the player's lasers.
    pub dies_to_laser: bool,
    pub is_laser: bool,
}

pub open spec fn victim_of(a: Participant, b: Participant) -> Option<EntityId> {
    if a.dies_to_laser && b.is_laser {
        Some(a.id)
    } else if b.dies_to_laser && a.is_laser {
        Some(b.id)
    } else {
        None
    }
}

/// The entity hurt by a contact between a laser and something that dies
/// to lasers, whichever side each stands on.
pub fn laser_victim(a: Participant, b: Participant) -> (r: Option<EntityId>)
    ensures
        r == victim_of(a, b),
{
    if a.dies_to_laser && b.is_laser {
        Some(a.id)
    } else if b.dies_to_laser && a.is_laser {
        Some(b.id)
    } else {
        None
    }
}

/// Frame of the shared animation clock at a time since startup (microseconds).
pub fn animation_frame(since_startup: u64) -> (r: u64)
    ensures
        r == (since_startup / FRAME_PERIOD) % CYCLE_FRAMES,
        r < CYCLE_FRAMES,
{
    (since_startup / FRAME_PERIOD) % CYCLE_FRAMES
}

/// Frame of the boss's sixteen-frame loop at a time since startup (microseconds).
pub fn dicethulhu_frame(since_startup: u64) -> (r: u64)
    ensures
        r == (since_startup / 200_000) % 16,
        r < 16,
{
    (since_startup / 200_000) % 16
}

pub open spec fn faced(player_x: int, enemy_x: int, previous: Facing) -> Facing {
    if player_x > enemy_x {
        Facing::Right
    } else if player_x < enemy_x {
        Facing::Left
    } else {
        previous
    }
}

/// The facing of an enemy that looks at the player; kept when both stand
/// on the same vertical line.
pub fn face_toward(player_x: Coord, enemy_x: Coord, previous: Facing) -> (r: Facing)
    ensures
        r == faced(player_x as int, enemy_x as int, previous),
        player_x > enemy_x ==> r == Facing::Right,
        player_x < enemy_x ==> r == Facing::Left,
        player_x == enemy_x ==> r == previous,
{
    if player_x > enemy_x {
        Facing::Right
    } else if player_x < enemy_x {
        Facing::Left
    } else {
        previous
    }
}

/// A random position in the spawn area.
pub fn spawn_position() -> (r: (Coord, Coord))
    ensures
        -SPAWN_HALF_WIDTH <= r.0 <= SPAWN_HALF_WIDTH,
        -SPAWN_HALF_HEIGHT <= r.1 <= SPAWN_HALF_HEIGHT,
{
    let x = random_in(-SPAWN_HALF_WIDTH, SPAWN_HALF_WIDTH);
    let y = random_in(-SPAWN_HALF_HEIGHT, SPAWN_HALF_HEIGHT);
    (x, y)
}

pub open spec fn jitter_ok(jitter: int) -> bool {
    -(ENEMY_ONE_COOLDOWN_VAR as int) <= jitter <= ENEMY_ONE_COOLDOWN_VAR as int
}

/// A fresh one-shot cooldown of the base length moved by `jitter`.
pub open spec fn cooldown_for(jitter: int) -> Timer {
    Timer {
        duration: (ENEMY_ONE_COOLDOWN as int + jitter) as u64,
        elapsed: 0,
        repeating: false,
        finished: false,
        times_finished: 0,
    }
}

pub open spec fn sprite_for(state: EnemyOneState, frame: nat) -> nat {
    match state {
        EnemyOneState::Attack => if frame + 7 < 11 {
            (frame + 7) as nat
        } else {
            11
        },
        _ => ((frame + 1) % 7) as nat,
    }
}

pub open spec fn bob_for(state: EnemyOneState, sprite: nat) -> int {
    match state {
        EnemyOneState::Attack => 0,
        _ => if sprite >= 2 {
            -BOB_FALL
        } else {
            BOB_RISE as int
        },
    }
}

pub open spec fn beam_for(fires: bool, facing: Facing) -> Option<BeamSpawn> {
    if fires {
        Some(
            BeamSpawn {
                offset_x: if facing == Facing::Right {
                    BEAM_OFFSET_X
                } else {
                    (-BEAM_OFFSET_X) as Coord
                },
                offset_y: BEAM_OFFSET_Y,
            },
        )
    } else {
        None
    }
}

pub open spec fn frame_for(state: EnemyOneState, frame: nat, facing: Facing, fires: bool) -> EnemyFrame {
    let sprite = sprite_for(state, frame);
    EnemyFrame {
        sprite_index: sprite as u64,
        bob: bob_for(state, sprite) as Coord,
        beam: beam_for(fires, facing),
    }
}

/// Whether an enemy, its state and cooldown already advanced for this tick,
/// fires its beam on clock frame `frame`: once per attack, on the beam sprite.
pub open spec fn fires_beam(e: EnemyOne, frame: nat) -> bool {
    e.state == EnemyOneState::Attack && sprite_for(e.state, frame) == BEAM_SPRITE && !e.beam_fired
}

/// Where a moving enemy ends up: one step of tracking toward the player's height.
pub open spec fn tracked_y(y: int, player_y: int, delta: nat) -> int {
    y + sign(player_y - y) * ENEMY_ONE_SPEED * delta
}

impl EnemyOne {
    pub open spec fn wf(self) -> bool {
        self.attack_cooldown.wf()
    }

    /// The enemy's state and cooldown after one animation tick on clock
    /// frame `frame`, before its beam fires: an attack that ends re-arms the
    /// cooldown, an attack that starts has not fired yet.
    pub open spec fn advanced(self, frame: nat, delta: nat, jitter: int) -> EnemyOne {
        let rearmed = if self.state == EnemyOneState::Attack && frame == ATTACK_END_FRAME {
            EnemyOne { state: EnemyOneState::Move, attack_cooldown: cooldown_for(jitter), ..self }
        } else {
            self
        };
        let cooldown = rearmed.attack_cooldown.ticked(delta);
        if cooldown.finished && rearmed.state == EnemyOneState::Idle && frame == 0 {
            EnemyOne { state: EnemyOneState::Attack, attack_cooldown: cooldown, beam_fired: false }
        } else {
            EnemyOne { attack_cooldown: cooldown, ..rearmed }
        }
    }

    /// The enemy after one animation tick on clock frame `frame`.
    pub open spec fn animated(self, frame: nat, delta: nat, jitter: int) -> EnemyOne {
        let e = self.advanced(frame, delta, jitter);
        EnemyOne { beam_fired: e.beam_fired || fires_beam(e, frame), ..e }
    }

    /// The enemy after one tracking tick, at height `y`, toward height `player_y`.
    pub open spec fn after_tracking(self, y: int, player_y: int) -> EnemyOne {
        if self.state == EnemyOneState::Move && abs(player_y - y) < ALIGN_TOLERANCE {
            EnemyOne { state: EnemyOneState::Idle, ..self }
        } else {
            self
        }
    }

    /// An idle enemy whose first cooldown is the base length moved by `jitter`.
    pub fn with_jitter(jitter: i64) -> (r: EnemyOne)
        requires
            jitter_ok(jitter as int),
        ensures
            r.wf(),
            r.state == EnemyOneState::Idle,
            r.attack_cooldown == cooldown_for(jitter as int),
            !r.beam_fired,
    {
        let duration = (ENEMY_ONE_COOLDOWN as i64 + jitter) as u64;
        EnemyOne {
            state: EnemyOneState::Idle,
            attack_cooldown: Timer::new(duration, false),
            beam_fired: false,
        }
    }

    /// An idle enemy with a randomly jittered first cooldown.
    pub fn spawn() -> (r: EnemyOne)
        ensures
            r.wf(),
            r.state == EnemyOneState::Idle,
            !r.beam_fired,
            exists|j: int| jitter_ok(j) && r.attack_cooldown == cooldown_for(j),
    {
        let var = ENEMY_ONE_COOLDOWN_VAR as i64;
        let jitter = random_in(-var, var);
        EnemyOne::with_jitter(jitter)
    }

    /// One animation tick on clock frame `frame`, with `jitter` for a
    /// cooldown re-armed by an attack that ends in this tick. The beam comes
    /// on the beam sprite, once per attack.
    pub fn animate_with(&mut self, frame: u64, delta: u64, facing: Facing, jitter: i64) -> (r:
        EnemyFrame)
        requires
            old(self).wf(),
            frame < CYCLE_FRAMES,
            jitter_ok(jitter as int),
        ensures
            final(self).wf(),
            *final(self) == old(self).animated(frame as nat, delta as nat, jitter as int),
            r == frame_for(
                final(self).state,
                frame as nat,
                facing,
                fires_beam(old(self).advanced(frame as nat, delta as nat, jitter as int), frame as nat),
            ),
            r.beam is Some ==> final(self).beam_fired && final(self).state == EnemyOneState::Attack,
    {
        if self.state == EnemyOneState::Attack && frame == ATTACK_END_FRAME {
            self.state = EnemyOneState::Move;
            self.attack_cooldown = Timer::new((ENEMY_ONE_COOLDOWN as i64 + jitter) as u64, false);
        }
        self.attack_cooldown.tick(delta);
        if self.attack_cooldown.finished() && self.state == EnemyOneState::Idle && frame == 0 {
            self.state = EnemyOneState::Attack;
            self.beam_fired = false;
        }

        let sprite = match self.state {
            EnemyOneState::Attack => if frame + ATTACK_FIRST_SPRITE < ATTACK_LAST_SPRITE {
                frame + ATTACK_FIRST_SPRITE
            } else {
                ATTACK_LAST_SPRITE
            },
            _ => (frame + 1) % CYCLE_FRAMES,
        };
        let bob = match self.state {
            EnemyOneState::Attack => 0,
            _ => if sprite >= 2 {
                -BOB_FALL
            } else {
                BOB_RISE
            },
        };
        let beam = if self.state == EnemyOneState::Attack && sprite == BEAM_SPRITE && !self.beam_fired {
            self.beam_fired = true;
            let offset_x = match facing {
                Facing::Right => BEAM_OFFSET_X,
                Facing::Left => -BEAM_OFFSET_X,
            };
            Some(BeamSpawn { offset_x, offset_y: BEAM_OFFSET_Y })
        } else {
            None
        };
        EnemyFrame { sprite_index: sprite, bob, beam }
    }

    /// One animation tick on clock frame `frame`; a cooldown re-armed in
    /// this tick gets a random jitter.
    pub fn animate(&mut self, frame: u64, delta: u64, facing: Facing) -> (r: EnemyFrame)
        requires
            old(self).wf(),
            frame < CYCLE_FRAMES,
        ensures
            final(self).wf(),
            exists|j: int|
                jitter_ok(j) && *final(self) == old(self).animated(frame as nat, delta as nat, j)
                    && r == frame_for(
                    final(self).state,
                    frame as nat,
                    facing,
                    fires_beam(old(self).advanced(frame as nat, delta as nat, j), frame as nat),
                ),
            r.beam is Some ==> final(self).beam_fired && final(self).state == EnemyOneState::Attack,
    {
        let var = ENEMY_ONE_COOLDOWN_VAR as i64;
        let jitter = random_in(-var, var);
        let r = self.animate_with(frame, delta, facing, jitter);
        assert(jitter_ok(jitter as int));
        r
    }

    /// One tracking tick: a moving enemy at height `y` steps toward the
    /// player's height `player_y`, and goes idle once within the tolerance.
    /// Returns the new height.
    pub fn track_player(&mut self, y: Coord, player_y: Coord, delta: u64) -> (r: Coord)
        requires
            old(self).state == EnemyOneState::Move ==> i64::MIN <= tracked_y(
                y as int,
                player_y as int,
                delta as nat,
            ) <= i64::MAX,
        ensures
            *final(self) == old(self).after_tracking(y as int, player_y as int),
            r == if old(self).state == EnemyOneState::Move {
                tracked_y(y as int, player_y as int, delta as nat)
            } else {
                y as int
            },
    {
        if self.state != EnemyOneState::Move {
            return y;
        }
        let dy = player_y as i128 - y as i128;
        if -(ALIGN_TOLERANCE as i128) < dy && dy < ALIGN_TOLERANCE as i128 {
            self.state = EnemyOneState::Idle;
        }
        proof {
            assert(0 <= 70 * (delta as int) <= 70 * (u64::MAX as int)) by (nonlinear_arith);
        }
        let step = ENEMY_ONE_SPEED as i128 * delta as i128;
        assert(step == ENEMY_ONE_SPEED * delta);
        let moved = if dy > 0 {
            assert(tracked_y(y as int, player_y as int, delta as nat) == y + step);
            y as i128 + step
        } else if dy < 0 {
            assert(sign(player_y - y) == -1);
            assert(sign(player_y - y) * 70 * delta == -(70 * delta)) by (nonlinear_arith)
                requires sign(player_y - y) == -1;
            y as i128 - step
        } else {
            assert(sign(player_y - y) == 0);
            assert(sign(player_y - y) * 70 * delta == 0) by (nonlinear_arith)
                requires sign(player_y - y) == 0;
            y as i128
        };
        moved as i64
    }
}

/// Which state may come right after another: the cycle runs
/// Idle, Attack, Move, Idle, and a state may also persist.
pub open spec fn may_follow(a: EnemyOneState, b: EnemyOneState) -> bool {
    ||| a == b
    ||| (a == EnemyOneState::Idle && b == EnemyOneState::Attack)
    ||| (a == EnemyOneState::Attack && b == EnemyOneState::Move)
    ||| (a == EnemyOneState::Move && b == EnemyOneState::Idle)
}

pub open spec fn step_ok(step: EnemyStep) -> bool {
    match step {
        EnemyStep::Animate { frame, jitter, .. } => frame < CYCLE_FRAMES && jitter_ok(
            jitter as int,
        ),
        EnemyStep::Track { .. } => true,
    }
}

pub open spec fn steps_ok(steps: Seq<EnemyStep>) -> bool {
    forall|i: int| 0 <= i < steps.len() ==> step_ok(#[trigger] steps[i])
}

impl EnemyOne {
    pub open spec fn stepped(self, step: EnemyStep) -> EnemyOne {
        match step {
            EnemyStep::Animate { frame, delta, jitter } => self.animated(
                frame as nat,
                delta as nat,
                jitter as int,
            ),
            EnemyStep::Track { y, player_y } => self.after_tracking(y as int, player_y as int),
        }
    }
}

/// The states an enemy passes through over a run of steps, its first state included.
pub open spec fn trace(e: EnemyOne, steps: Seq<EnemyStep>) -> Seq<EnemyOneState>
    decreases steps.len(),
{
    if steps.len() == 0 {
        seq![e.state]
    } else {
        seq![e.state] + trace(e.stepped(steps[0]), steps.skip(1))
    }
}

/// One step moves an enemy only along its cycle, and it enters Attack only
/// with a finished cooldown.
pub proof fn lemma_enemy_step(e: EnemyOne, step: EnemyStep)
    requires
        e.wf(),
        step_ok(step),
    ensures
        e.stepped(step).wf(),
        may_follow(e.state, e.stepped(step).state),
        e.state != EnemyOneState::Attack && e.stepped(step).state == EnemyOneState::Attack
            ==> e.stepped(step).attack_cooldown.finished,
{
    if let EnemyStep::Animate { frame, delta, jitter } = step {
        let rearmed = if e.state == EnemyOneState::Attack && frame == ATTACK_END_FRAME {
            EnemyOne {
                state: EnemyOneState::Move,
                attack_cooldown: cooldown_for(jitter as int),
                ..e
            }
        } else {
            e
        };
        rearmed.attack_cooldown.lemma_ticked_wf(delta as nat);
    }
}

/// Over any run of steps, each state of the trace may follow the one before.
pub proof fn lemma_enemy_trace(e: EnemyOne, steps: Seq<EnemyStep>)
    requires
        e.wf(),
        steps_ok(steps),
    ensures
        trace(e, steps).len() == steps.len() + 1,
        trace(e, steps)[0] == e.state,
        forall|i: int|
            0 <= i < steps.len() ==> may_follow(
                #[trigger] trace(e, steps)[i],
                trace(e, steps)[i + 1],
            ),
    decreases steps.len(),
{
    if steps.len() > 0 {
        let rest = steps.skip(1);
        let next = e.stepped(steps[0]);
        assert(step_ok(steps[0]));
        lemma_enemy_step(e, steps[0]);
        assert forall|i: int| 0 <= i < rest.len() implies step_ok(#[trigger] rest[i]) by {
            assert(rest[i] == steps[i + 1]);
        }
        lemma_enemy_trace(next, rest);
        let t = trace(e, steps);
        let tr = trace(next, rest);
        assert(t == seq![e.state] + tr);
        assert forall|i: int| 0 <= i < steps.len() implies may_follow(
            #[trigger] t[i],
            t[i + 1],
        ) by {
            if i > 0 {
                assert(t[i] == tr[i - 1]);
                assert(t[i + 1] == tr[i]);
            }
        }
    }
}

/// Two attacks in a trace with something other than Attack between them
/// always have a Move between them.
pub proof fn lemma_attack_needs_move(e: EnemyOne, steps: Seq<EnemyStep>, i: int, j: int, k: int)
    requires
        e.wf(),
        steps_ok(steps),
        0 <= i < k < j <= steps.len(),
        trace(e, steps)[i] == EnemyOneState::Attack,
        trace(e, steps)[j] == EnemyOneState::Attack,
        trace(e, steps)[k] != EnemyOneState::Attack,
    ensures
        exists|m: int| i < m < j && trace(e, steps)[m] == EnemyOneState::Move,
    decreases k - i,
{
    lemma_enemy_trace(e, steps);
    let t = trace(e, steps);
    assert(may_follow(t[i], t[i + 1]));
    if t[i + 1] != EnemyOneState::Move {
        lemma_attack_needs_move(e, steps, i + 1, j, k);
        let m = choose|m: int| i + 1 < m < j && t[m] == EnemyOneState::Move;
        assert(i < m < j && t[m] == EnemyOneState::Move);
    } else {
        assert(i < i + 1 < j && t[i + 1] == EnemyOneState::Move);
    }
}

/// Whether a step fires a beam.
pub open spec fn step_fires(e: EnemyOne, step: EnemyStep) -> bool {
    match step {
        EnemyStep::Animate { frame, delta, jitter } => fires_beam(
            e.advanced(frame as nat, delta as nat, jitter as int),
            frame as nat,
        ),
        EnemyStep::Track { .. } => false,
    }
}

/// How many beams an enemy fires over a run of steps.
pub open spec fn beams_fired(e: EnemyOne, steps: Seq<EnemyStep>) -> nat
    decreases steps.len(),
{
    if steps.len() == 0 {
        0
    } else {
        (if step_fires(e, steps[0]) {
            1nat
        } else {
            0nat
        }) + beams_fired(e.stepped(steps[0]), steps.skip(1))
    }
}

/// An enemy that stays in Attack over a run of steps fires at most one
/// beam in it, and none if this attack has fired already: an enemy owns at
/// most one beam per attack.
pub proof fn lemma_one_beam_per_attack(e: EnemyOne, steps: Seq<EnemyStep>)
    requires
        e.wf(),
        steps_ok(steps),
        forall|i: int|
            0 <= i <= steps.len() ==> #[trigger] trace(e, steps)[i] == EnemyOneState::Attack,
    ensures
        beams_fired(e, steps) + (if e.beam_fired {
            1int
        } else {
            0int
        }) <= 1,
    decreases steps.len(),
{
    if steps.len() > 0 {
        let rest = steps.skip(1);
        let next = e.stepped(steps[0]);
        assert(step_ok(steps[0]));
        lemma_enemy_step(e, steps[0]);
        assert forall|i: int| 0 <= i < rest.len() implies step_ok(#[trigger] rest[i]) by {
            assert(rest[i] == steps[i + 1]);
        }
        lemma_enemy_trace(e, steps);
        lemma_enemy_trace(next, rest);
        let t = trace(e, steps);
        let tr = trace(next, rest);
        assert(t == seq![e.state] + tr);
        assert(t[0] == EnemyOneState::Attack);
        assert(t[1] == EnemyOneState::Attack);
        assert forall|i: int| 0 <= i <= rest.len() implies #[trigger] tr[i]
            == EnemyOneState::Attack by {
            assert(tr[i] == t[i + 1]);
        }
        lemma_one_beam_per_attack(next, rest);
        assert(step_fires(e, steps[0]) ==> !e.beam_fired && next.beam_fired);
        assert(e.beam_fired ==> next.beam_fired);
    }
}

impl Default for Beam {
    fn default() -> (r: Beam)
        ensures
            r.timer.wf(),
            r.timer.is_fresh(),
            r.timer.duration == ENEMY_ONE_BEAM,
            !r.timer.repeating,
    {
        Beam { timer: Timer::new(ENEMY_ONE_BEAM, false) }
    }
}

impl Beam {
    /// Advances the beam's lifetime; true on the tick that ends it.
    pub fn tick(&mut self, delta: u64) -> (expired: bool)
        requires
            old(self).timer.wf(),
        ensures
            final(self).timer == old(self).timer.ticked(delta as nat),
            final(self).timer.wf(),
            expired == (final(self).timer.times_finished > 0),
    {
        self.timer.tick(delta);
        self.timer.just_finished()
    }
}

} // verus!
