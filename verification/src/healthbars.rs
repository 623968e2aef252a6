//! Health bars: whose they are, and how full.

use vstd::prelude::*;

use crate::enemy::EnemyHealth;
use crate::numeric::MICRO;
use crate::physics::Entity;
use crate::player::PlayerHealth;

verus! {

/// Whose health a bar shows.
#[derive(Debug, Clone, Copy, PartialEq, Eq, Structural)]
pub enum Healthbar {
    Enemy { entity: Entity },
    Player,
}

/// How a health bar is drawn.
#[derive(Debug, Clone, Copy, PartialEq, Eq, Structural)]
pub struct HealthbarLook {
    /// A bar is shown for those who are hurt and alive.
    pub visible: bool,
    /// How much of the bar is filled, in millionths.
    pub fraction: u64,
}

/// How the bar of someone with `current` of `maximum` health is drawn: it is
/// filled by the share of the health that is left, between nothing and all
/// of it, and shown while that share is neither.
pub open spec fn healthbar_look(current: i64, maximum: i64) -> HealthbarLook {
    if maximum <= 0 || current <= 0 {
        HealthbarLook { visible: false, fraction: 0 }
    } else if current >= maximum {
        HealthbarLook { visible: false, fraction: MICRO }
    } else {
        HealthbarLook { visible: true, fraction: (current * MICRO / (maximum as int)) as u64 }
    }
}

/// How the bar of someone with `current` of `maximum` health is drawn.
pub fn healthbar(current: i64, maximum: i64) -> (look: HealthbarLook)
    ensures
        look == healthbar_look(current, maximum),
        look.fraction <= MICRO,
{
    if maximum <= 0 || current <= 0 {
        HealthbarLook { visible: false, fraction: 0 }
    } else if current >= maximum {
        HealthbarLook { visible: false, fraction: MICRO }
    } else {
        assert(0 <= current * MICRO <= maximum * MICRO) by (nonlinear_arith)
            requires
                0 <= current <= maximum,
                MICRO == 1_000_000,
        ;
        proof {
            vstd::arithmetic::div_mod::lemma_div_is_ordered(
                current * MICRO,
                maximum * MICRO,
                maximum as int,
            );
            vstd::arithmetic::div_mod::lemma_div_by_multiple(MICRO as int, maximum as int);
            assert(maximum * MICRO == MICRO * maximum) by (nonlinear_arith);
        }
        HealthbarLook {
            visible: true,
            fraction: ((current as u128) * (MICRO as u128) / (maximum as u128)) as u64,
        }
    }
}

/// How a health bar is drawn in this tick. `enemy_health` is the health of
/// the bar's enemy, if the bar is an enemy's and the enemy is still there;
/// the bar of an enemy that is gone is left as it is.
pub fn update_healthbar(
    bar: &Healthbar,
    player_health: &PlayerHealth,
    enemy_health: Option<EnemyHealth>,
) -> (look: Option<HealthbarLook>)
    ensures
        look == match *bar {
            Healthbar::Player => Some(healthbar_look(player_health.current, player_health.maximum)),
            Healthbar::Enemy { .. } => match enemy_health {
                Some(health) => Some(healthbar_look(health.current, health.maximum)),
                None => None,
            },
        },
{
    match *bar {
        Healthbar::Player => Some(healthbar(player_health.current, player_health.maximum)),
        Healthbar::Enemy { .. } => match enemy_health {
            Some(health) => Some(healthbar(health.current, health.maximum)),
            None => None,
        },
    }
}

} // verus!
