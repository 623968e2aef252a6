//! What the rules need to know of a collision: which two things met.

use vstd::prelude::*;

use crate::projectiles::Projectile;
use crate::room::CardinalDirection;

verus! {

/// The engine's name for a thing in the world.
#[derive(Debug, Clone, Copy, PartialEq, Eq, Hash, Structural)]
pub struct Entity(pub u64);

/// What a thing is, as far as collisions care.
#[derive(Debug, Clone, Copy, PartialEq, Eq, Structural)]
pub enum EntityKind {
    Player,
    Enemy,
    /// A wall of the room, with the side it closes off.
    Wall(CardinalDirection),
    /// A projectile in flight, with what it carries.
    Projectile(Projectile),
    /// Anything else: an obstacle, a corpse, something that is gone already.
    Other,
}

/// A projectile in the world: the thing itself, and what it carries.
#[derive(Debug, Clone, Copy, PartialEq, Eq, Structural)]
pub struct FlyingProjectile {
    pub entity: Entity,
    pub projectile: Projectile,
}

/// Two things touch, or have stopped touching.
#[derive(Debug, Clone, Copy, PartialEq, Eq, Structural)]
pub struct CollisionEvent {
    /// Whether the contact has begun; only such events count.
    pub started: bool,
    pub first: Entity,
    pub first_kind: EntityKind,
    pub second: Entity,
    pub second_kind: EntityKind,
}

impl CollisionEvent {
    /// The thing of kind `kind` that takes part, the first where both do.
    pub open spec fn spec_find(self, kind: EntityKind) -> Option<Entity> {
        if self.first_kind == kind {
            Some(self.first)
        } else if self.second_kind == kind {
            Some(self.second)
        } else {
            None
        }
    }

    /// The thing of kind `kind` that takes part, the first where both do.
    pub fn find(&self, kind: EntityKind) -> (found: Option<Entity>)
        ensures
            found == self.spec_find(kind),
    {
        if self.first_kind == kind {
            Some(self.first)
        } else if self.second_kind == kind {
            Some(self.second)
        } else {
            None
        }
    }

    /// The thing that a projectile can hurt, the player or an enemy, that
    /// takes part; the first where both can be hurt.
    pub open spec fn spec_target(self) -> Option<Entity> {
        if self.first_kind is Player || self.first_kind is Enemy {
            Some(self.first)
        } else if self.second_kind is Player || self.second_kind is Enemy {
            Some(self.second)
        } else {
            None
        }
    }

    /// The thing that a projectile can hurt, the player or an enemy, that
    /// takes part; the first where both can be hurt.
    pub fn target(&self) -> (target: Option<Entity>)
        ensures
            target == self.spec_target(),
    {
        match self.first_kind {
            EntityKind::Player => Some(self.first),
            EntityKind::Enemy => Some(self.first),
            _ => match self.second_kind {
                EntityKind::Player => Some(self.second),
                EntityKind::Enemy => Some(self.second),
                _ => None,
            },
        }
    }

    /// The projectile that takes part, with what it carries; the first
    /// where both are projectiles.
    pub open spec fn spec_projectile(self) -> Option<FlyingProjectile> {
        match self.first_kind {
            EntityKind::Projectile(projectile) => Some(
                FlyingProjectile { entity: self.first, projectile },
            ),
            _ => match self.second_kind {
                EntityKind::Projectile(projectile) => Some(
                    FlyingProjectile { entity: self.second, projectile },
                ),
                _ => None,
            },
        }
    }

    /// The projectile that takes part, with what it carries; the first
    /// where both are projectiles.
    pub fn projectile(&self) -> (found: Option<FlyingProjectile>)
        ensures
            found == self.spec_projectile(),
    {
        match self.first_kind {
            EntityKind::Projectile(projectile) => Some(
                FlyingProjectile { entity: self.first, projectile },
            ),
            _ => match self.second_kind {
                EntityKind::Projectile(projectile) => Some(
                    FlyingProjectile { entity: self.second, projectile },
                ),
                _ => None,
            },
        }
    }

    /// The side of the wall that takes part, the first where both are walls.
    pub open spec fn spec_wall(self) -> Option<CardinalDirection> {
        match self.first_kind {
            EntityKind::Wall(direction) => Some(direction),
            _ => match self.second_kind {
                EntityKind::Wall(direction) => Some(direction),
                _ => None,
            },
        }
    }

    /// The side of the wall that takes part, the first where both are walls.
    pub fn wall(&self) -> (side: Option<CardinalDirection>)
        ensures
            side == self.spec_wall(),
    {
        match self.first_kind {
            EntityKind::Wall(direction) => Some(direction),
            _ => match self.second_kind {
                EntityKind::Wall(direction) => Some(direction),
                _ => None,
            },
        }
    }
}

} // verus!
