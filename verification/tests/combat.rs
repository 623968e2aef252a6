use wizards_spiral::cycles::CycleCounter;
use wizards_spiral::damage::{
    detect_melee_attacks, handle_damage_event, knockback_between, resolve_melee_attack,
    DamageEvent, EnemyDamage, MeleeAttackEvent, MeleeExchange,
};
use wizards_spiral::enemy::{
    offset_within_radius, boss_defeated, BossDefeat, alert_enemy, chase, handle_enemy_death, move_enemy, square, wander, wander_offset,
    EnemyAlertEvent, EnemyAlertEventType, EnemyDeath, EnemyDeathEvent, EnemyHealth, EnemyState,
    EnemyStats, EnemyType, Steering, WanderState,
};
use wizards_spiral::geometry::{Point, Rect};
use wizards_spiral::physics::{CollisionEvent, Entity, EntityKind, FlyingProjectile};
use wizards_spiral::player::{
    handle_player_death, manually_restart, scale_by, DeathStep, PlayerHealth,
};
use wizards_spiral::projectiles::{
    add_projectile_launcher_state, detect_projectile_hits, handle_projectile_hit,
    launch_projectile, reflect_projectile, resolve_projectile_hit, update_projectile, Aim,
    HitOutcome, LauncherStep, Projectile, ProjectileHit, ProjectileHitEvent,
    ProjectileLauncherState, ProjectileReflectEvent, ProjectileStep, ReflectedProjectile,
};
use wizards_spiral::rand::{GlobalRng, RngSeed};
use wizards_spiral::room::spawn::SPAWN_MARGIN_PERCENT;
use wizards_spiral::room::{
    CardinalDirection, CurrentRoom, PersistentRoomState, RoomInfo, SpawnerIndex,
};
use wizards_spiral::save_data::SaveData;
use wizards_spiral::skills::{PlayerSkills, Skill, SkillUnlockedEvent};
use wizards_spiral::states::GameState;

fn stats(alert_radius: u32, chase_radius: u32, desired_distance: u32) -> EnemyStats {
    EnemyStats {
        enemy_type: EnemyType::Melee { melee_damage: 10_000_000 },
        health: 30_000_000,
        speed: 64,
        mass: 2_000_000,
        alert_radius,
        chase_radius,
        desired_distance,
    }
}

fn ranged() -> EnemyStats {
    EnemyStats {
        enemy_type: EnemyType::Ranged {
            melee_damage: 5_000_000,
            projectile_damage: 8_000_000,
            projectile_speed: 200,
            projectile_lifetime: 3_000_000,
            homing: true,
            delay: 1_500_000,
        },
        health: 20_000_000,
        speed: 48,
        mass: 500_000,
        alert_radius: 150,
        chase_radius: 250,
        desired_distance: 120,
    }
}

fn projectile() -> Projectile {
    Projectile {
        target: Entity(1),
        source: Entity(7),
        speed: 200,
        damage: 8_000_000,
        homing: true,
        lifetime: 3_000_000,
    }
}

fn touch(first_kind: EntityKind, second_kind: EntityKind) -> CollisionEvent {
    CollisionEvent { started: true, first: Entity(1), first_kind, second: Entity(2), second_kind }
}

fn room() -> CurrentRoom {
    CurrentRoom {
        info: RoomInfo {
            name: "Dark Forest".to_string(),
            rect: Rect { min: Point { x: -100, y: -100 }, max: Point { x: 100, y: 100 } },
            num_melee_enemies: 2,
            num_ranged_enemies: 0,
            num_obstacles: 0,
            boss: false,
            north: None,
            south: None,
            east: None,
            west: None,
        },
        melee_enemy_stats: stats(75, 100, 0),
        ranged_enemy_stats: ranged(),
        boss_stats: None,
    }
}

fn skills_with_mirror(level: u64, unlocked: bool) -> PlayerSkills {
    PlayerSkills::from_save_data(&SaveData {
        audio_muted: false,
        cycles: 0,
        armor_level: 0,
        armor_xp: 0,
        armor_unlocked: true,
        sword_level: 0,
        sword_xp: 0,
        sword_unlocked: false,
        shield_level: 0,
        shield_xp: 0,
        shield_unlocked: false,
        pants_level: 0,
        pants_xp: 0,
        pants_unlocked: false,
        mirror_level: level,
        mirror_xp: 0,
        mirror_unlocked: unlocked,
        healing_level: 0,
        healing_xp: 0,
        healing_unlocked: false,
        speed_level: 0,
        speed_xp: 0,
        speed_unlocked: false,
    })
}

#[test]
fn enemy_between_the_radii_keeps_its_state() {
    let stats = stats(75, 100, 0);
    let mut state = EnemyState::default();
    assert_eq!(state, EnemyState::Wander);
    // 80 away: between alert radius 75 and chase radius 100
    assert_eq!(state.alert(&stats, 6400), None);
    assert_eq!(state, EnemyState::Wander);
    assert_eq!(state.alert(&stats, 5626), None);
    assert_eq!(state, EnemyState::Wander);
    assert_eq!(state.alert(&stats, 5625), Some(EnemyAlertEventType::Alert));
    assert_eq!(state, EnemyState::Chase);
    assert_eq!(state.alert(&stats, 6400), None);
    assert_eq!(state, EnemyState::Chase);
    assert_eq!(state.alert(&stats, 10_000), None);
    assert_eq!(state, EnemyState::Chase);
    assert_eq!(state.alert(&stats, 10_001), Some(EnemyAlertEventType::TooFar));
    assert_eq!(state, EnemyState::Wander);
    assert_eq!(square(75), 5625);
    assert_eq!(square(u32::MAX), 18_446_744_065_119_617_025);
}

#[test]
fn enemy_looks_for_the_player_by_distance() {
    let stats = stats(75, 100, 0);
    let mut state = EnemyState::Wander;
    let enemy_pos = Point { x: 10, y: 10 };
    assert_eq!(alert_enemy(Entity(4), &mut state, &stats, None, enemy_pos), None);
    assert_eq!(state, EnemyState::Wander);
    // 80 away
    let far = Some(Point { x: 10, y: 90 });
    assert_eq!(alert_enemy(Entity(4), &mut state, &stats, far, enemy_pos), None);
    // 75 away: 45 and 60 make 75
    let near = Some(Point { x: 55, y: 70 });
    assert_eq!(
        alert_enemy(Entity(4), &mut state, &stats, near, enemy_pos),
        Some(EnemyAlertEvent { enemy: Entity(4), ty: EnemyAlertEventType::Alert })
    );
    assert_eq!(state, EnemyState::Chase);
    assert_eq!(alert_enemy(Entity(4), &mut state, &stats, far, enemy_pos), None);
    assert_eq!(alert_enemy(Entity(4), &mut state, &stats, None, enemy_pos), None);
    assert_eq!(state, EnemyState::Chase);
    let gone = Some(Point { x: 10, y: 111 });
    assert_eq!(
        alert_enemy(Entity(4), &mut state, &stats, gone, enemy_pos),
        Some(EnemyAlertEvent { enemy: Entity(4), ty: EnemyAlertEventType::TooFar })
    );
    assert_eq!(state, EnemyState::Wander);
    assert_eq!(Point { x: i32::MIN, y: i32::MIN }.distance_squared(Point { x: i32::MAX, y: i32::MAX }),
        2 * (u32::MAX as u128) * (u32::MAX as u128));
}

#[test]
fn melee_damage_comes_from_the_enemy_type() {
    assert_eq!(stats(1, 2, 3).melee_damage(), 10_000_000);
    assert_eq!(ranged().melee_damage(), 5_000_000);
}

#[test]
fn enemy_health_runs_out() {
    let mut health = EnemyHealth::new(30_000_000);
    assert_eq!(health, EnemyHealth { maximum: 30_000_000, current: 30_000_000 });
    assert!(!health.take_damage(29_999_999));
    assert_eq!(health.current, 1);
    assert!(health.take_damage(1));
    assert_eq!(health.current, 0);
    assert!(health.take_damage(u64::MAX));
    assert_eq!(health.current, i64::MIN);
    assert_eq!(health.maximum, 30_000_000);
}

#[test]
fn melee_attacks_are_contacts_of_player_and_enemy() {
    let collisions = vec![
        touch(EntityKind::Player, EntityKind::Enemy),
        touch(EntityKind::Enemy, EntityKind::Player),
        touch(EntityKind::Enemy, EntityKind::Enemy),
        touch(EntityKind::Player, EntityKind::Wall(CardinalDirection::North)),
        CollisionEvent {
            started: false,
            first: Entity(1),
            first_kind: EntityKind::Player,
            second: Entity(2),
            second_kind: EntityKind::Enemy,
        },
        touch(EntityKind::Other, EntityKind::Player),
    ];
    assert_eq!(
        detect_melee_attacks(&collisions),
        vec![
            MeleeAttackEvent { player: Entity(1), enemy: Entity(2) },
            MeleeAttackEvent { player: Entity(2), enemy: Entity(1) },
        ]
    );
    assert!(detect_melee_attacks(&vec![]).is_empty());
}

#[test]
fn melee_attack_knocks_back_and_hurts_both_sides() {
    let attack = MeleeAttackEvent { player: Entity(1), enemy: Entity(2) };
    let enemy = stats(75, 100, 0);
    // the player weighs 1, the enemy 2
    let exchange = resolve_melee_attack(&attack, true, Some(&enemy), 1_000_000, 12_500_000);
    assert_eq!(
        exchange,
        Some(MeleeExchange {
            player_knockback: 600_000_000,
            enemy_knockback: 150_000_000,
            to_player: DamageEvent::Player { damage: 10_000_000 },
            to_enemy: DamageEvent::Enemy { entity: Entity(2), damage: 12_500_000 },
        })
    );
    assert_eq!(resolve_melee_attack(&attack, false, Some(&enemy), 1_000_000, 1), None);
    assert_eq!(resolve_melee_attack(&attack, true, None, 1_000_000, 1), None);
    assert_eq!(knockback_between(1_000_000, 3_000_000), 100_000_000);
    assert_eq!(knockback_between(1_000_000, 0), u64::MAX);
    assert_eq!(knockback_between(u64::MAX, 1), u64::MAX);
    assert_eq!(knockback_between(0, 5), 0);
}

#[test]
fn damage_to_the_player_is_scaled_by_the_armor() {
    let mut health = PlayerHealth::new(100_000_000);
    let event = DamageEvent::Player { damage: 10_000_000 };
    assert_eq!(handle_damage_event(&event, &mut health, 500_000, None), None);
    assert_eq!(health, PlayerHealth { current: 95_000_000, maximum: 100_000_000, dead: false });
    assert_eq!(handle_damage_event(&event, &mut health, 1_000_000, None), None);
    assert_eq!(health.current, 85_000_000);
    let fatal = DamageEvent::Player { damage: 85_000_000 };
    assert_eq!(
        handle_damage_event(&fatal, &mut health, 1_000_000, Some(EnemyHealth::new(5))),
        None
    );
    assert_eq!(health, PlayerHealth { current: 0, maximum: 100_000_000, dead: true });
    assert_eq!(scale_by(10_000_000, 500_000), 5_000_000);
    assert_eq!(scale_by(3, 333_333), 0);
}

#[test]
fn damage_to_an_enemy_is_dealt_in_full() {
    let mut health = PlayerHealth::new(100_000_000);
    let event = DamageEvent::Enemy { entity: Entity(9), damage: 12_000_000 };
    let hurt = handle_damage_event(&event, &mut health, 500_000, Some(EnemyHealth::new(30_000_000)));
    assert_eq!(
        hurt,
        Some(EnemyDamage {
            health: EnemyHealth { maximum: 30_000_000, current: 18_000_000 },
            death: None,
        })
    );
    let killed = handle_damage_event(
        &event,
        &mut health,
        500_000,
        Some(EnemyHealth { maximum: 30_000_000, current: 12_000_000 }),
    );
    assert_eq!(
        killed,
        Some(EnemyDamage {
            health: EnemyHealth { maximum: 30_000_000, current: 0 },
            death: Some(EnemyDeathEvent { entity: Entity(9) }),
        })
    );
    // an enemy that is gone
    assert_eq!(handle_damage_event(&event, &mut health, 500_000, None), None);
    assert_eq!(health, PlayerHealth::new(100_000_000));
}

#[test]
fn death_of_an_enemy_switches_its_spawner_off() {
    let mut rng = GlobalRng::from_seed(RngSeed(1));
    let mut cache = PersistentRoomState::new();
    let room = room();
    assert_eq!(
        handle_enemy_death(&mut cache, &room, Some(SpawnerIndex(0))),
        EnemyDeath::RoomNotCached
    );
    assert!(cache.get_or_create(&room.info, SPAWN_MARGIN_PERCENT, &mut rng));
    assert_eq!(handle_enemy_death(&mut cache, &room, None), EnemyDeath::StaleEvent);
    assert_eq!(
        handle_enemy_death(&mut cache, &room, Some(SpawnerIndex(2))),
        EnemyDeath::NoSuchSpawner
    );
    assert_eq!(cache.is_spawner_active("Dark Forest", 0), Some(true));
    assert_eq!(cache.is_spawner_active("Dark Forest", 1), Some(true));
    assert_eq!(handle_enemy_death(&mut cache, &room, Some(SpawnerIndex(1))), EnemyDeath::Buried);
    assert_eq!(cache.is_spawner_active("Dark Forest", 0), Some(true));
    assert_eq!(cache.is_spawner_active("Dark Forest", 1), Some(false));
}

#[test]
fn wandering_enemy_strolls_to_a_place_nearby() {
    let mut rng = GlobalRng::from_seed(RngSeed(9));
    let mut wander_state = WanderState::new(2_500_000, 4_000_000, &mut rng);
    assert!(wander_state.target.is_none());
    assert!(2_500_000 <= wander_state.delay && wander_state.delay < 4_000_000);
    let home = Point { x: 1000, y: -1000 };
    assert_eq!(wander(&mut wander_state, home, false, &mut rng), Steering::Stop);
    assert!(wander_state.target.is_none());
    let mut strolled = false;
    for _ in 0..50 {
        let steering = wander(&mut wander_state, home, true, &mut rng);
        let target = wander_state.target.unwrap();
        assert!(target.distance_squared(home) <= 75 * 75);
        assert!(2_500_000 <= wander_state.delay && wander_state.delay < 4_000_000);
        if target.distance_squared(home) < 256 {
            assert_eq!(steering, Steering::Stop);
        } else {
            assert_eq!(steering, Steering::Stroll { target });
            strolled = true;
        }
    }
    assert!(strolled);
    // the place is kept until the next wait has run out
    let target = wander_state.target.unwrap();
    let delay = wander_state.delay;
    let steering = wander(&mut wander_state, target, false, &mut rng);
    assert_eq!(steering, Steering::Stop);
    assert_eq!(wander_state.target, Some(target));
    assert_eq!(wander_state.delay, delay);
    let near = Point { x: target.x + 15, y: target.y };
    assert_eq!(wander(&mut wander_state, near, false, &mut rng), Steering::Stop);
    let off = Point { x: target.x + 16, y: target.y };
    assert_eq!(wander(&mut wander_state, off, false, &mut rng), Steering::Stroll { target });
}

#[test]
fn wander_offsets_stay_within_the_radius() {
    let mut rng = GlobalRng::from_seed(RngSeed(2));
    let mut seen_far = false;
    for _ in 0..200 {
        let offset = wander_offset(&mut rng);
        let squared = offset.distance_squared(Point { x: 0, y: 0 });
        assert!(squared <= 5625);
        seen_far = seen_far || squared > 400;
    }
    assert!(seen_far);
}

#[test]
fn wait_without_a_range_is_the_least_wait() {
    let mut rng = GlobalRng::from_seed(RngSeed(2));
    let same = WanderState::new(7, 7, &mut rng);
    assert_eq!(same.delay, 7);
    let inverted = WanderState::new(9, 3, &mut rng);
    assert_eq!(inverted.delay, 9);
    let one = WanderState::new(9, 10, &mut rng);
    assert_eq!(one.delay, 9);
    let mut wide = WanderState::new(0, u32::MAX, &mut rng);
    wide.reset(&mut rng);
    assert!(wide.delay < u32::MAX);
    assert_eq!(wide.min_delay, 0);
    assert_eq!(wide.max_delay, u32::MAX);
}

#[test]
fn chasing_enemy_keeps_its_distance() {
    let enemy_pos = Point { x: 0, y: 0 };
    let archer = stats(150, 250, 120);
    assert_eq!(chase(&archer, enemy_pos, None), Steering::Stop);
    let at = |x: i32| Some(Point { x, y: 0 });
    assert_eq!(chase(&archer, enemy_pos, at(120)), Steering::Stop);
    assert_eq!(chase(&archer, enemy_pos, at(135)), Steering::Stop);
    assert_eq!(chase(&archer, enemy_pos, at(105)), Steering::Stop);
    assert_eq!(
        chase(&archer, enemy_pos, at(136)),
        Steering::Approach { target: Point { x: 136, y: 0 } }
    );
    assert_eq!(
        chase(&archer, enemy_pos, at(104)),
        Steering::Retreat { from: Point { x: 104, y: 0 } }
    );
    assert_eq!(chase(&archer, enemy_pos, at(0)), Steering::Retreat { from: Point { x: 0, y: 0 } });
    // a melee enemy wants to be where the player is
    let brute = stats(75, 100, 0);
    assert_eq!(chase(&brute, enemy_pos, at(15)), Steering::Stop);
    assert_eq!(chase(&brute, enemy_pos, at(0)), Steering::Stop);
    assert_eq!(
        chase(&brute, enemy_pos, at(-16)),
        Steering::Approach { target: Point { x: -16, y: 0 } }
    );
}

#[test]
fn enemy_moves_as_its_state_asks() {
    let mut rng = GlobalRng::from_seed(RngSeed(2));
    let mut wander_state = WanderState::new(10, 20, &mut rng);
    let before = wander_state;
    let archer = stats(150, 250, 120);
    let player = Some(Point { x: 500, y: 0 });
    let here = Point { x: 0, y: 0 };
    assert_eq!(
        move_enemy(EnemyState::Chase, &archer, &mut wander_state, here, player, true, &mut rng),
        Steering::Approach { target: Point { x: 500, y: 0 } }
    );
    assert_eq!(wander_state, before);
    assert_eq!(
        move_enemy(EnemyState::Wander, &archer, &mut wander_state, here, player, false, &mut rng),
        Steering::Stop
    );
    assert_eq!(wander_state, before);
    let steering =
        move_enemy(EnemyState::Wander, &archer, &mut wander_state, here, player, true, &mut rng);
    let target = wander_state.target.unwrap();
    assert!(steering == Steering::Stop || steering == Steering::Stroll { target });
}

#[test]
fn projectile_hits_are_contacts_of_projectile_and_target() {
    let flying = EntityKind::Projectile(projectile());
    let collisions = vec![
        touch(flying, EntityKind::Player),
        touch(EntityKind::Enemy, flying),
        touch(flying, EntityKind::Other),
        touch(flying, flying),
        touch(EntityKind::Player, EntityKind::Enemy),
        CollisionEvent {
            started: false,
            first: Entity(1),
            first_kind: flying,
            second: Entity(2),
            second_kind: EntityKind::Player,
        },
    ];
    assert_eq!(
        detect_projectile_hits(&collisions),
        vec![
            ProjectileHit {
                projectile_entity: Entity(1),
                event: ProjectileHitEvent { projectile: projectile(), target: Entity(2) },
            },
            ProjectileHit {
                projectile_entity: Entity(2),
                event: ProjectileHitEvent { projectile: projectile(), target: Entity(1) },
            },
        ]
    );
    assert_eq!(
        collisions[1].projectile(),
        Some(FlyingProjectile { entity: Entity(2), projectile: projectile() })
    );
    assert_eq!(collisions[1].target(), Some(Entity(1)));
    assert_eq!(collisions[4].target(), Some(Entity(1)));
    assert_eq!(collisions[4].projectile(), None);
    assert_eq!(collisions[4].find(EntityKind::Enemy), Some(Entity(2)));
    assert_eq!(collisions[4].wall(), None);
}

#[test]
fn projectile_hit_is_reflected_or_hurts() {
    let hit = ProjectileHitEvent { projectile: projectile(), target: Entity(1) };
    assert_eq!(
        resolve_projectile_hit(&hit, true, true),
        HitOutcome::Reflected(ProjectileReflectEvent { projectile: projectile() })
    );
    assert_eq!(
        resolve_projectile_hit(&hit, true, false),
        HitOutcome::Damage(DamageEvent::Player { damage: 8_000_000 })
    );
    assert_eq!(
        resolve_projectile_hit(&hit, false, true),
        HitOutcome::Damage(DamageEvent::Enemy { entity: Entity(1), damage: 8_000_000 })
    );
}

#[test]
fn locked_mirror_never_reflects() {
    let mut rng = GlobalRng::from_seed(RngSeed(4));
    let locked = skills_with_mirror(1000, false);
    let hit = ProjectileHitEvent { projectile: projectile(), target: Entity(1) };
    for _ in 0..200 {
        assert_eq!(
            handle_projectile_hit(&hit, Some(Entity(1)), &locked, &mut rng),
            HitOutcome::Damage(DamageEvent::Player { damage: 8_000_000 })
        );
    }
}

#[test]
fn polished_mirror_reflects_about_three_hits_in_four() {
    let mut rng = GlobalRng::from_seed(RngSeed(4));
    let polished = skills_with_mirror(u64::MAX, true);
    assert_eq!(polished.reflect_chance(), 750_000);
    let hit = ProjectileHitEvent { projectile: projectile(), target: Entity(1) };
    let mut reflected = 0;
    for _ in 0..1000 {
        match handle_projectile_hit(&hit, Some(Entity(1)), &polished, &mut rng) {
            HitOutcome::Reflected(event) => {
                assert_eq!(event.projectile, projectile());
                reflected += 1;
            }
            HitOutcome::Damage(damage) => {
                assert_eq!(damage, DamageEvent::Player { damage: 8_000_000 });
            }
        }
    }
    assert!(650 < reflected && reflected < 850);
    // a hit on anything but the player is never reflected
    for player in [Some(Entity(3)), None] {
        assert_eq!(
            handle_projectile_hit(&hit, player, &polished, &mut rng),
            HitOutcome::Damage(DamageEvent::Enemy { entity: Entity(1), damage: 8_000_000 })
        );
    }
}

#[test]
fn reflected_projectile_flies_back_to_its_source() {
    let event = ProjectileReflectEvent { projectile: projectile() };
    let player_pos = Point { x: 5, y: 6 };
    let back = reflect_projectile(&event, player_pos, Some(Point { x: 50, y: 60 }), 11_000_000);
    assert_eq!(
        back,
        ReflectedProjectile {
            projectile: Projectile {
                target: Entity(7),
                source: Entity(1),
                speed: 200,
                damage: 11_000_000,
                homing: true,
                lifetime: 3_000_000,
            },
            from: player_pos,
            aim: Aim::At(Point { x: 50, y: 60 }),
        }
    );
    let astray = reflect_projectile(&event, player_pos, None, 11_000_000);
    assert_eq!(astray.aim, Aim::Anywhere);
    assert_eq!(astray.projectile, back.projectile);
}

#[test]
fn projectile_homes_in_until_its_time_is_up() {
    let homing = projectile();
    let straight = Projectile { homing: false, ..projectile() };
    let target = Some(Point { x: 3, y: 4 });
    assert_eq!(update_projectile(&homing, true, target), ProjectileStep::Despawn);
    assert_eq!(update_projectile(&straight, true, None), ProjectileStep::Despawn);
    assert_eq!(update_projectile(&straight, false, target), ProjectileStep::Fly);
    assert_eq!(update_projectile(&homing, false, None), ProjectileStep::Fly);
    assert_eq!(
        update_projectile(&homing, false, target),
        ProjectileStep::Home { towards: Point { x: 3, y: 4 } }
    );
}

#[test]
fn ranged_enemy_fires_while_it_chases() {
    assert_eq!(add_projectile_launcher_state(&stats(1, 2, 3)), None);
    let launcher = add_projectile_launcher_state(&ranged()).unwrap();
    assert_eq!(
        launcher,
        ProjectileLauncherState {
            delay: 1_500_000,
            projectile_speed: 200,
            projectile_damage: 8_000_000,
            projectile_lifetime: 3_000_000,
            homing: true,
        }
    );
    let enemy = Entity(7);
    let player = Some(Entity(1));
    assert_eq!(
        launch_projectile(&launcher, EnemyState::Chase, true, enemy, None),
        LauncherStep::Idle
    );
    assert_eq!(
        launch_projectile(&launcher, EnemyState::Wander, true, enemy, player),
        LauncherStep::Rewind { delay: 1_500_000 }
    );
    assert_eq!(
        launch_projectile(&launcher, EnemyState::Chase, false, enemy, player),
        LauncherStep::Wait
    );
    assert_eq!(
        launch_projectile(&launcher, EnemyState::Chase, true, enemy, player),
        LauncherStep::Launch(projectile())
    );
}

#[test]
fn player_health_starts_full() {
    assert_eq!(
        PlayerHealth::new(100_000_000),
        PlayerHealth { current: 100_000_000, maximum: 100_000_000, dead: false }
    );
    assert_eq!(PlayerHealth::default(), PlayerHealth::new(100_000_000));
    assert!(PlayerHealth::new(0).dead);
    assert!(PlayerHealth::new(-5).dead);
    // 100 hit points times 1.5
    assert_eq!(PlayerHealth::for_multiplier(1_500_000), PlayerHealth::new(150_000_000));
    assert_eq!(PlayerHealth::for_multiplier(1_000_000), PlayerHealth::default());
    assert_eq!(PlayerHealth::for_multiplier(u64::MAX), PlayerHealth::new(i64::MAX));
}

#[test]
fn player_takes_damage_and_heals() {
    let mut health = PlayerHealth::new(100_000_000);
    health.take_damage(30_000_000, 1_000_000);
    assert_eq!(health.current, 70_000_000);
    assert!(!health.dead);
    assert!(health.heal(250_000));
    assert_eq!(health.current, 95_000_000);
    assert!(health.heal(250_000));
    assert_eq!(health.current, 100_000_000);
    assert!(!health.heal(250_000));
    assert_eq!(health.current, 100_000_000);
    health.take_damage(u64::MAX, u64::MAX);
    assert_eq!(health.current, i64::MIN);
    assert!(health.dead);
    assert!(!health.heal(500_000));
    assert_eq!(health.current, i64::MIN);
    let mut over = PlayerHealth { current: 120, maximum: 100, dead: false };
    assert!(!over.heal(500_000));
    assert_eq!(over.current, 120);
}

#[test]
fn holding_the_restart_key_gives_up() {
    let mut health = PlayerHealth::new(100_000_000);
    let mut held: u64 = 0;
    manually_restart(&mut health, &mut held, true, 1_500_000);
    assert_eq!(held, 1_500_000);
    assert!(!health.dead);
    manually_restart(&mut health, &mut held, false, 1_000_000);
    assert_eq!(held, 0);
    manually_restart(&mut health, &mut held, true, 1_500_000);
    manually_restart(&mut health, &mut held, true, 500_000);
    assert_eq!(held, 2_000_000);
    assert!(!health.dead);
    manually_restart(&mut health, &mut held, true, 1);
    assert_eq!(held, 2_000_001);
    assert_eq!(health, PlayerHealth { current: 0, maximum: 100_000_000, dead: true });
    manually_restart(&mut health, &mut held, true, u64::MAX);
    assert_eq!(held, u64::MAX);
}

#[test]
fn death_counts_the_cycle_once_the_timer_is_up() {
    let mut counter = CycleCounter { count: 3 };
    let alive = PlayerHealth::new(100_000_000);
    assert_eq!(handle_player_death(&alive, Some(true), &mut counter), DeathStep::Alive);
    assert_eq!(counter.count, 3);
    let dead = PlayerHealth { current: 0, maximum: 100_000_000, dead: true };
    assert_eq!(handle_player_death(&dead, None, &mut counter), DeathStep::JustDied);
    assert_eq!(handle_player_death(&dead, Some(false), &mut counter), DeathStep::Waiting);
    assert_eq!(counter.count, 3);
    assert_eq!(
        handle_player_death(&dead, Some(true), &mut counter),
        DeathStep::Restart(GameState::RestartCycle)
    );
    assert_eq!(counter.count, 4);
}

#[test]
fn defeated_boss_gives_up_its_skill() {
    assert_eq!(boss_defeated(None, false), BossDefeat { unlock: None, next_state: None });
    assert_eq!(
        boss_defeated(Some(Skill::Mirror), false),
        BossDefeat { unlock: Some(SkillUnlockedEvent { skill: Skill::Mirror }), next_state: None }
    );
    assert_eq!(
        boss_defeated(None, true),
        BossDefeat { unlock: None, next_state: Some(GameState::Outro) }
    );
}

#[test]
fn drawn_step_is_taken_within_the_radius_only() {
    assert_eq!(offset_within_radius(0, 0), Some(Point { x: 0, y: 0 }));
    assert_eq!(offset_within_radius(45, 60), Some(Point { x: 45, y: 60 }));
    assert_eq!(offset_within_radius(-75, 0), Some(Point { x: -75, y: 0 }));
    assert_eq!(offset_within_radius(0, 75), Some(Point { x: 0, y: 75 }));
    assert_eq!(offset_within_radius(45, 61), None);
    assert_eq!(offset_within_radius(75, 75), None);
    assert_eq!(offset_within_radius(76, 0), None);
    assert_eq!(offset_within_radius(0, -76), None);
    assert_eq!(offset_within_radius(i64::MAX, i64::MIN), None);
    assert_eq!(offset_within_radius(4_294_967_296, 0), None);
}
