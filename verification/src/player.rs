//! The player: health, death and the place of entry into a room.

use vstd::arithmetic::div_mod::{lemma_div_by_multiple, lemma_div_is_ordered};
use vstd::prelude::*;

use crate::cycles::CycleCounter;
use crate::geometry::Point;
use crate::numeric::MICRO;
use crate::states::GameState;

verus! {

/// The health that a player without any skill starts with, in millionths of
/// a hit point.
pub const BASE_HEALTH: u64 = 100_000_000;

/// How long the restart key has to be held for the player to give up, in
/// microseconds.
pub const RESTART_HOLD: u64 = 2_000_000;

/// The player's health, in millionths of a hit point.
#[derive(Debug, Clone, Copy, PartialEq, Eq, Structural)]
pub struct PlayerHealth {
    pub current: i64,
    pub maximum: i64,
    pub dead: bool,
}

/// A whole number brought into the range of health values.
pub open spec fn clamp_health(value: int) -> i64 {
    if value < i64::MIN {
        i64::MIN
    } else if value > i64::MAX {
        i64::MAX
    } else {
        value as i64
    }
}

/// `amount` times a factor that is given in millionths, rounded down.
pub open spec fn scale(amount: nat, factor: nat) -> nat {
    amount * factor / (MICRO as nat)
}

/// `amount` times `factor` millionths, rounded down.
pub fn scale_by(amount: u64, factor: u64) -> (scaled: u128)
    ensures
        scaled == scale(amount as nat, factor as nat),
        scaled <= 0xffff_ffff_ffff_ffff_ffff_ffff_ffff,
        factor <= MICRO ==> scaled <= amount,
{
    assert(amount * factor <= 0xffff_ffff_ffff_ffff * 0xffff_ffff_ffff_ffff) by (nonlinear_arith)
        requires
            amount <= 0xffff_ffff_ffff_ffff,
            factor <= 0xffff_ffff_ffff_ffff,
    ;
    proof {
        lemma_div_is_ordered(
            amount * factor,
            0xffff_ffff_ffff_ffffint * 0xffff_ffff_ffff_ffffint,
            MICRO as int,
        );
        if factor <= MICRO {
            assert(amount * factor <= amount * MICRO) by (nonlinear_arith)
                requires
                    factor <= MICRO,
                    0 <= amount,
            ;
            lemma_div_is_ordered(amount * factor, amount * MICRO, MICRO as int);
            lemma_div_by_multiple(amount as int, MICRO as int);
        }
    }
    (amount as u128) * (factor as u128) / (MICRO as u128)
}

/// The health that the player has at the start of a cycle: the base health
/// times the health multiplier (in millionths), as far as it can be held.
pub open spec fn starting_health(multiplier: nat) -> i64 {
    clamp_health(scale(BASE_HEALTH as nat, multiplier) as int)
}

impl PlayerHealth {
    /// Full health of the given maximum. A player whose maximum is not
    /// above zero is dead from the start.
    pub fn new(maximum: i64) -> (health: PlayerHealth)
        ensures
            health.current == maximum,
            health.maximum == maximum,
            health.dead == (maximum <= 0),
    {
        PlayerHealth { current: maximum, maximum, dead: maximum <= 0 }
    }

    /// The health that the player starts a cycle with, given the health
    /// multiplier in millionths.
    pub fn for_multiplier(multiplier: u64) -> (health: PlayerHealth)
        ensures
            health.current == starting_health(multiplier as nat),
            health.maximum == starting_health(multiplier as nat),
            health.dead == (starting_health(multiplier as nat) <= 0),
    {
        let scaled: u128 = scale_by(BASE_HEALTH, multiplier);
        let maximum: i64 = if scaled > i64::MAX as u128 {
            i64::MAX
        } else {
            scaled as i64
        };
        PlayerHealth::new(maximum)
    }

    /// Takes `damage` (millionths of a hit point) of which the player feels
    /// the fraction `damage_taken` (millionths). The player is dead once the
    /// health is not above zero, and stays dead.
    pub fn take_damage(&mut self, damage: u64, damage_taken: u64)
        ensures
            final(self).maximum == old(self).maximum,
            final(self).current == clamp_health(
                old(self).current - scale(damage as nat, damage_taken as nat),
            ),
            final(self).dead == (old(self).dead || final(self).current <= 0),
    {
        let felt: u128 = scale_by(damage, damage_taken);
        let left: i128 = self.current as i128 - felt as i128;
        self.current = if left < i64::MIN as i128 {
            i64::MIN
        } else {
            left as i64
        };
        if self.current <= 0 {
            self.dead = true;
        }
    }

    /// One healing tick: restores the fraction `healing` (millionths) of the
    /// maximum health, but no more than is missing. Says whether anything
    /// was restored. The dead are not healed.
    pub fn heal(&mut self, healing: u64) -> (healed: bool)
        ensures
            final(self).maximum == old(self).maximum,
            final(self).dead == old(self).dead,
            final(self).current == old(self).current + healed_amount(*old(self), healing as nat),
            healed == (healed_amount(*old(self), healing as nat) > 0),
            old(self).current <= old(self).maximum ==> final(self).current <= final(self).maximum,
    {
        if self.dead || self.maximum <= 0 || self.current >= self.maximum {
            return false;
        }
        let offered: u128 = scale_by(self.maximum as u64, healing);
        let missing: u128 = (self.maximum as i128 - self.current as i128) as u128;
        let amount: u128 = if offered < missing {
            offered
        } else {
            missing
        };
        if amount > 0 {
            self.current = (self.current as i128 + amount as i128) as i64;
            true
        } else {
            false
        }
    }

    /// The player gives up: the health drops to nothing.
    pub fn give_up(&mut self)
        ensures
            final(self).current == 0,
            final(self).dead,
            final(self).maximum == old(self).maximum,
    {
        self.current = 0;
        self.dead = true;
    }
}

/// What one healing tick restores: the offered share of the maximum or what
/// is missing, whichever is less; nothing for the dead, and nothing where
/// nothing is missing.
pub open spec fn healed_amount(health: PlayerHealth, healing: nat) -> nat {
    if health.dead || health.maximum <= 0 || health.current >= health.maximum {
        0
    } else {
        let offered = scale(health.maximum as nat, healing);
        let missing = (health.maximum - health.current) as nat;
        if offered < missing {
            offered
        } else {
            missing
        }
    }
}

impl Default for PlayerHealth {
    fn default() -> (health: PlayerHealth)
        ensures
            health.current == BASE_HEALTH,
            health.maximum == BASE_HEALTH,
            !health.dead,
    {
        PlayerHealth::new(BASE_HEALTH as i64)
    }
}

/// Where the player appears in the room that is being entered.
#[derive(Debug, Default, Clone, Copy, PartialEq, Eq, Structural)]
pub struct PlayerSpawnPosition {
    pub pos: Point,
}

/// The player has died.
#[derive(Debug, Default, Clone, Copy, PartialEq, Eq, Structural)]
pub struct PlayerDeathEvent;

/// For how long the restart key has been held without a break after
/// `elapsed` more microseconds, given for how long it had been held before
/// and whether it is held now.
pub open spec fn held_for(time_held: u64, pressed: bool, elapsed: u64) -> u64 {
    if !pressed {
        0
    } else if time_held + elapsed > u64::MAX {
        u64::MAX
    } else {
        (time_held + elapsed) as u64
    }
}

/// Follows the restart key: counts for how long it has been held, and has
/// the player give up once that is longer than two seconds.
pub fn manually_restart(
    player_health: &mut PlayerHealth,
    time_held: &mut u64,
    pressed: bool,
    elapsed: u64,
)
    ensures
        *final(time_held) == held_for(*old(time_held), pressed, elapsed),
        *final(time_held) > RESTART_HOLD ==> {
            &&& final(player_health).current == 0
            &&& final(player_health).dead
            &&& final(player_health).maximum == old(player_health).maximum
        },
        *final(time_held) <= RESTART_HOLD ==> *final(player_health) == *old(player_health),
{
    if pressed {
        *time_held = if *time_held > u64::MAX - elapsed {
            u64::MAX
        } else {
            *time_held + elapsed
        };
    } else {
        *time_held = 0;
    }
    if *time_held > RESTART_HOLD {
        player_health.give_up();
    }
}

/// What follows from the player's death in one tick.
#[derive(Debug, Clone, Copy, PartialEq, Eq, Structural)]
pub enum DeathStep {
    /// The player is alive: nothing happens.
    Alive,
    /// The player has just died: the body falls, and the death timer starts.
    JustDied,
    /// The player is dead and the death timer is running.
    Waiting,
    /// The death timer has run out: the cycle is counted and restarts.
    Restart(GameState),
}

/// Follows the player's death. `timer` says whether the death timer exists
/// and, if it does, whether it has run out in this tick. When it has, the
/// cycle counter rises by one and the game goes on to restart the cycle.
pub fn handle_player_death(
    player_health: &PlayerHealth,
    timer: Option<bool>,
    cycle_counter: &mut CycleCounter,
) -> (step: DeathStep)
    requires
        old(cycle_counter).count < u64::MAX,
    ensures
        step == if !player_health.dead {
            DeathStep::Alive
        } else {
            match timer {
                None => DeathStep::JustDied,
                Some(false) => DeathStep::Waiting,
                Some(true) => DeathStep::Restart(GameState::RestartCycle),
            }
        },
        final(cycle_counter).count == if step is Restart {
            old(cycle_counter).count + 1
        } else {
            old(cycle_counter).count as int
        },
{
    if !player_health.dead {
        return DeathStep::Alive;
    }
    match timer {
        None => DeathStep::JustDied,
        Some(false) => DeathStep::Waiting,
        Some(true) => {
            cycle_counter.count = cycle_counter.count + 1;
            DeathStep::Restart(GameState::RestartCycle)
        },
    }
}

} // verus!
