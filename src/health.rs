//! Hit points, damage and the invulnerability window that follows a hit.
//!
//! A qualifying hit marks a healthy combatant as damaged; the damage pass
//! consumes the mark, takes one hit point, and opens an invulnerability
//! window during which hits are ignored and the sprite flashes. At zero hit
//! points the combatant is destroyed, for good.
use vstd::prelude::*;
use crate::enemy::ENEMY_ONE_HEALTH;
use crate::player::PLAYER_HEALTH;
use crate::timer::{total_time, Timer};

verus! {

/// Invulnerability after a hit on the player, in microseconds.
pub const PLAYER_INVULN: u64 = 1_000_000;

/// Flash period of the player's sprite while invulnerable, in microseconds.
pub const PLAYER_FLASH: u64 = 200_000;

/// Invulnerability after a hit on an enemy, in microseconds.
pub const BRIEF_INVULN: u64 = 200_000;

/// Flash period of an enemy's sprite while invulnerable, in microseconds.
pub const BRIEF_FLASH: u64 = 40_000;

#[derive(Clone, Copy, Debug, PartialEq, Eq, Structural)]
pub struct Health {
    pub health: u8,
}

/// An invulnerability window: how long it lasts, and the flash sub-timer.
#[derive(Clone, Copy, Debug, PartialEq, Eq, Structural)]
pub struct Invuln {
    pub duration: Timer,
    pub flash_period: Timer,
}

/// Opacity levels of a sprite: fully visible, faint (a tenth), hidden.
#[derive(Clone, Copy, Debug, PartialEq, Eq, Structural)]
pub enum Opacity {
    Opaque,
    Faint,
    Hidden,
}

#[derive(Clone, Copy, Debug, PartialEq, Eq, Structural)]
pub enum CombatState {
    Healthy,
    Invulnerable(Invuln),
    Destroyed,
}

/// What a damage pass did.
#[derive(Clone, Copy, Debug, PartialEq, Eq, Structural)]
pub enum DamageOutcome {
    /// No hit was waiting.
    Unhurt,
    /// One hit point lost; an invulnerability window opened.
    Wounded,
    /// The last hit point lost.
    Destroyed,
}

/// Something that has hit points and can be hit.
#[derive(Clone, Copy, Debug, PartialEq, Eq, Structural)]
pub struct Combatant {
    pub health: Health,
    pub state: CombatState,
    pub opacity: Opacity,
    /// A hit that waits for the next damage pass.
    pub damaged: bool,
    /// The window opened by each hit.
    pub window: Invuln,
}

/// One event of a combatant's life: a qualifying hit, processed in the same
/// pass, or elapsed time.
#[derive(Clone, Copy, Debug, PartialEq, Eq, Structural)]
pub enum CombatEvent {
    Hit,
    Elapsed(u64),
}

impl Invuln {
    pub open spec fn wf(self) -> bool {
        self.duration.wf() && self.flash_period.wf()
    }

    pub open spec fn is_fresh(self) -> bool {
        self.duration.is_fresh() && self.flash_period.is_fresh()
    }

    /// The short window of an enemy: a fifth of a second, flashing every
    /// twenty-fifth of a second.
    pub fn brief() -> (r: Invuln)
        ensures
            r == brief_window(),
            r.wf(),
            r.is_fresh(),
    {
        Invuln { duration: Timer::new(BRIEF_INVULN, false), flash_period: Timer::new(BRIEF_FLASH, true) }
    }
}

impl Default for Invuln {
    /// The player's window: one second, with a repeating flash.
    fn default() -> (r: Invuln)
        ensures
            r == player_window(),
            r.wf(),
            r.is_fresh(),
    {
        Invuln { duration: Timer::new(PLAYER_INVULN, false), flash_period: Timer::new(PLAYER_FLASH, true) }
    }
}

pub open spec fn fresh_timer(duration: u64, repeating: bool) -> Timer {
    Timer { duration, elapsed: 0, repeating, finished: false, times_finished: 0 }
}

/// The window opened by a hit on the player: one second, with a one-shot
/// duration timer and a repeating flash every fifth of a second.
pub open spec fn player_window() -> Invuln {
    Invuln {
        duration: fresh_timer(PLAYER_INVULN, false),
        flash_period: fresh_timer(PLAYER_FLASH, true),
    }
}

/// The window opened by a hit on an enemy: a fifth of a second, with a
/// one-shot duration timer and a repeating flash every 40 ms.
pub open spec fn brief_window() -> Invuln {
    Invuln {
        duration: fresh_timer(BRIEF_INVULN, false),
        flash_period: fresh_timer(BRIEF_FLASH, true),
    }
}

/// The next level of the flicker: opaque and hidden turn faint, faint turns hidden.
pub open spec fn flashed(o: Opacity) -> Opacity {
    match o {
        Opacity::Faint => Opacity::Hidden,
        _ => Opacity::Faint,
    }
}

impl Opacity {
    pub fn next_flash(self) -> (r: Opacity)
        ensures
            r == flashed(self),
    {
        match self {
            Opacity::Faint => Opacity::Hidden,
            _ => Opacity::Faint,
        }
    }

    /// The opacity in hundredths.
    pub fn alpha_percent(self) -> (r: u8)
        ensures
            r == match self {
                Opacity::Opaque => 100u8,
                Opacity::Faint => 10u8,
                Opacity::Hidden => 0u8,
            },
    {
        match self {
            Opacity::Opaque => 100,
            Opacity::Faint => 10,
            Opacity::Hidden => 0,
        }
    }
}

impl Combatant {
    pub open spec fn wf(self) -> bool {
        &&& (self.health.health == 0 <==> self.state is Destroyed)
        &&& (self.state is Healthy ==> self.opacity == Opacity::Opaque)
        &&& (self.damaged ==> self.state is Healthy)
        &&& (self.state matches CombatState::Invulnerable(i) ==> i.wf())
        &&& self.window.wf()
        &&& self.window.is_fresh()
    }

    /// The combatant after a qualifying hit: marked, unless it is not healthy.
    pub open spec fn after_hit(self) -> Combatant {
        if self.state is Healthy {
            Combatant { damaged: true, ..self }
        } else {
            self
        }
    }

    /// The combatant after a damage pass, with what the pass did.
    pub open spec fn after_damage(self) -> (Combatant, DamageOutcome) {
        if !self.damaged {
            (self, DamageOutcome::Unhurt)
        } else {
            let left = (self.health.health - 1) as u8;
            if left == 0 {
                (
                    Combatant {
                        health: Health { health: left },
                        state: CombatState::Destroyed,
                        damaged: false,
                        ..self
                    },
                    DamageOutcome::Destroyed,
                )
            } else {
                (
                    Combatant {
                        health: Health { health: left },
                        state: CombatState::Invulnerable(self.window),
                        damaged: false,
                        ..self
                    },
                    DamageOutcome::Wounded,
                )
            }
        }
    }

    /// The combatant after `delta` microseconds: its window runs, its sprite
    /// flashes once per tick that completes the flash timer, and it turns
    /// healthy and opaque on the tick that completes the window.
    pub open spec fn after_advance(self, delta: nat) -> Combatant {
        match self.state {
            CombatState::Invulnerable(i) => {
                let duration = i.duration.ticked(delta);
                let flash_period = i.flash_period.ticked(delta);
                if duration.times_finished > 0 {
                    Combatant { state: CombatState::Healthy, opacity: Opacity::Opaque, ..self }
                } else {
                    Combatant {
                        state: CombatState::Invulnerable(Invuln { duration, flash_period }),
                        opacity: if flash_period.times_finished > 0 {
                            flashed(self.opacity)
                        } else {
                            self.opacity
                        },
                        ..self
                    }
                }
            },
            _ => self,
        }
    }

    /// The combatant after a run of ticks of the given lengths, in order.
    pub open spec fn after_ticks(self, deltas: Seq<u64>) -> Combatant
        decreases deltas.len(),
    {
        if deltas.len() == 0 {
            self
        } else {
            self.after_ticks(deltas.drop_last()).after_advance(deltas.last() as nat)
        }
    }

    /// One pass of a combatant's life.
    pub open spec fn after_pass(self, ev: CombatEvent) -> Combatant {
        match ev {
            CombatEvent::Hit => self.after_hit().after_damage().0,
            CombatEvent::Elapsed(delta) => self.after_advance(delta as nat),
        }
    }

    /// The combatant after a run of events.
    pub open spec fn after_run(self, evs: Seq<CombatEvent>) -> Combatant
        decreases evs.len(),
    {
        if evs.len() == 0 {
            self
        } else {
            self.after_pass(evs[0]).after_run(evs.skip(1))
        }
    }

    /// How many hits of a run met the combatant healthy.
    pub open spec fn landed_hits(self, evs: Seq<CombatEvent>) -> nat
        decreases evs.len(),
    {
        if evs.len() == 0 {
            0
        } else {
            (if evs[0] == CombatEvent::Hit && self.state is Healthy {
                1nat
            } else {
                0nat
            }) + self.after_pass(evs[0]).landed_hits(evs.skip(1))
        }
    }

    /// A healthy combatant with `max_health` hit points (destroyed at zero),
    /// opening `window` on each hit.
    pub fn new(max_health: u8, window: Invuln) -> (r: Combatant)
        requires
            window.wf(),
            window.is_fresh(),
        ensures
            r.wf(),
            r.health.health == max_health,
            r.state == if max_health == 0 {
                CombatState::Destroyed
            } else {
                CombatState::Healthy
            },
            r.opacity == Opacity::Opaque,
            !r.damaged,
            r.window == window,
    {
        let state = if max_health == 0 {
            CombatState::Destroyed
        } else {
            CombatState::Healthy
        };
        Combatant {
            health: Health { health: max_health },
            state,
            opacity: Opacity::Opaque,
            damaged: false,
            window,
        }
    }

    /// The player: five hit points, a one-second flashing window.
    pub fn player() -> (r: Combatant)
        ensures
            r.wf(),
            r.health.health == PLAYER_HEALTH,
            r.state == CombatState::Healthy,
            r.opacity == Opacity::Opaque,
            !r.damaged,
            r.window == player_window(),
    {
        Combatant::new(PLAYER_HEALTH, Invuln::default())
    }

    /// A roaming enemy: five hit points, a brief window.
    pub fn enemy_one() -> (r: Combatant)
        ensures
            r.wf(),
            r.health.health == ENEMY_ONE_HEALTH,
            r.state == CombatState::Healthy,
            r.opacity == Opacity::Opaque,
            !r.damaged,
            r.window == brief_window(),
    {
        Combatant::new(ENEMY_ONE_HEALTH, Invuln::brief())
    }

    pub fn is_healthy(&self) -> (r: bool)
        ensures
            r == self.state is Healthy,
    {
        matches!(self.state, CombatState::Healthy)
    }

    pub fn is_invulnerable(&self) -> (r: bool)
        ensures
            r == self.state is Invulnerable,
    {
        matches!(self.state, CombatState::Invulnerable(_))
    }

    pub fn is_destroyed(&self) -> (r: bool)
        ensures
            r == self.state is Destroyed,
    {
        matches!(self.state, CombatState::Destroyed)
    }

    /// A qualifying hit. It is accepted, and marks the combatant for the
    /// next damage pass, only when the combatant is healthy; a second hit
    /// before that pass changes nothing.
    pub fn register_hit(&mut self) -> (accepted: bool)
        requires
            old(self).wf(),
        ensures
            final(self).wf(),
            *final(self) == old(self).after_hit(),
            accepted == old(self).state is Healthy,
    {
        if self.is_healthy() {
            self.damaged = true;
            true
        } else {
            false
        }
    }

    /// The damage pass: a marked combatant loses the mark and one hit point,
    /// and is destroyed at zero or else enters its invulnerability window.
    pub fn apply_damage(&mut self) -> (r: DamageOutcome)
        requires
            old(self).wf(),
        ensures
            final(self).wf(),
            (*final(self), r) == old(self).after_damage(),
    {
        if !self.damaged {
            return DamageOutcome::Unhurt;
        }
        self.damaged = false;
        self.health.health = self.health.health - 1;
        if self.health.health == 0 {
            self.state = CombatState::Destroyed;
            DamageOutcome::Destroyed
        } else {
            self.state = CombatState::Invulnerable(self.window);
            DamageOutcome::Wounded
        }
    }

    /// Lets `delta` microseconds of the invulnerability window pass.
    pub fn advance_invuln(&mut self, delta: u64)
        requires
            old(self).wf(),
        ensures
            final(self).wf(),
            *final(self) == old(self).after_advance(delta as nat),
    {
        if let CombatState::Invulnerable(i) = self.state {
            let mut duration = i.duration;
            let mut flash_period = i.flash_period;
            duration.tick(delta);
            flash_period.tick(delta);
            if duration.just_finished() {
                self.state = CombatState::Healthy;
                self.opacity = Opacity::Opaque;
            } else {
                if flash_period.just_finished() {
                    self.opacity = self.opacity.next_flash();
                }
                self.state = CombatState::Invulnerable(Invuln { duration, flash_period });
            }
        }
    }
}

/// One pass keeps a combatant well formed, and takes a hit point exactly
/// when it is a hit that meets the combatant healthy.
pub proof fn lemma_pass(c: Combatant, ev: CombatEvent)
    requires
        c.wf(),
    ensures
        c.after_pass(ev).wf(),
        c.after_pass(ev).health.health == c.health.health - (if ev == CombatEvent::Hit
            && c.state is Healthy {
            1int
        } else {
            0int
        }),
{
    if let CombatEvent::Elapsed(delta) = ev {
        if let CombatState::Invulnerable(i) = c.state {
            i.duration.lemma_ticked_wf(delta as nat);
            i.flash_period.lemma_ticked_wf(delta as nat);
        }
    }
}

/// Over any run of events, hit points never rise, and they fall by exactly
/// one for each hit that meets the combatant healthy, that is, not
/// invulnerable.
pub proof fn lemma_health_never_rises(c: Combatant, evs: Seq<CombatEvent>)
    requires
        c.wf(),
    ensures
        c.after_run(evs).wf(),
        c.after_run(evs).health.health <= c.health.health,
        c.health.health == c.after_run(evs).health.health + c.landed_hits(evs),
    decreases evs.len(),
{
    if evs.len() > 0 {
        lemma_pass(c, evs[0]);
        lemma_health_never_rises(c.after_pass(evs[0]), evs.skip(1));
    }
}

/// A healthy combatant with one hit point is destroyed by a hit in the
/// pass that processes it, with no hit points left.
pub proof fn lemma_last_hit_destroys(c: Combatant)
    requires
        c.wf(),
        c.health.health == 1,
        c.state is Healthy,
    ensures
        c.after_pass(CombatEvent::Hit).state is Destroyed,
        c.after_pass(CombatEvent::Hit).health.health == 0,
{
}

/// A combatant that is destroyed has no hit points, and one that has no hit
/// points is destroyed: none is left with zero hit points.
pub proof fn lemma_zero_means_destroyed(c: Combatant, evs: Seq<CombatEvent>)
    requires
        c.wf(),
    ensures
        c.after_run(evs).health.health == 0 <==> c.after_run(evs).state is Destroyed,
{
    lemma_health_never_rises(c, evs);
}

/// An invulnerability window always ends with the sprite fully visible,
/// whatever the flicker was when it ended.
pub proof fn lemma_window_ends_opaque(c: Combatant, delta: nat)
    requires
        c.wf(),
        c.state is Invulnerable,
        c.after_advance(delta).state is Healthy,
    ensures
        c.after_advance(delta).opacity == Opacity::Opaque,
{
}

/// An invulnerability window with a one-shot duration timer lasts until the
/// first tick at which the time run since it opened reaches its duration:
/// over ticks that have not ended it before the last one, the combatant is
/// healthy again exactly when the summed time reaches the duration, and is
/// otherwise still invulnerable with that much time run.
pub proof fn lemma_window_ends_on_time(c: Combatant, deltas: Seq<u64>)
    requires
        c.state matches CombatState::Invulnerable(i) && !i.duration.repeating
            && i.duration.elapsed < i.duration.duration && !i.duration.finished
            && (deltas.len() > 0 ==> i.duration.elapsed + total_time(deltas.drop_last())
            < i.duration.duration),
    ensures
        ({
            let i = c.state->Invulnerable_0;
            let end = c.after_ticks(deltas);
            &&& (end.state is Healthy <==> deltas.len() > 0 && i.duration.elapsed
                + total_time(deltas) >= i.duration.duration)
            &&& (!(end.state is Healthy) ==> (end.state matches CombatState::Invulnerable(j)
                && j.duration.duration == i.duration.duration && !j.duration.repeating
                && !j.duration.finished && j.duration.elapsed == i.duration.elapsed
                + total_time(deltas)))
        }),
    decreases deltas.len(),
{
    if deltas.len() > 0 {
        let pre = deltas.drop_last();
        if pre.len() > 0 {
            assert(total_time(pre.drop_last()) <= total_time(pre));
        }
        lemma_window_ends_on_time(c, pre);
    }
}

} // verus!
