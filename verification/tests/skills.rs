use wizards_spiral::damage::{DamageBlockedEvent, DamageEvent, MeleeAttackEvent};
use wizards_spiral::physics::Entity;
use wizards_spiral::player::PlayerHealth;
use wizards_spiral::projectiles::{Projectile, ProjectileReflectEvent};
use wizards_spiral::save_data::SaveData;
use wizards_spiral::skills::{
    healing, process_unlock_events, process_xp_events, send_levelup_events, send_xp_events,
    speed_xp, update_player_speed, HealEvent, LevelUpEvent, PlayerSkills, Skill, SkillError,
    SkillFirstUnlockedEvent, SkillUnlockedEvent, SkillXpEvent,
};

const XP: u64 = 1_000_000;

fn empty_save() -> SaveData {
    SaveData {
        audio_muted: false,
        cycles: 0,
        armor_level: 0,
        armor_xp: 0,
        armor_unlocked: false,
        sword_level: 0,
        sword_xp: 0,
        sword_unlocked: false,
        shield_level: 0,
        shield_xp: 0,
        shield_unlocked: false,
        pants_level: 0,
        pants_xp: 0,
        pants_unlocked: false,
        mirror_level: 0,
        mirror_xp: 0,
        mirror_unlocked: false,
        healing_level: 0,
        healing_xp: 0,
        healing_unlocked: false,
        speed_level: 0,
        speed_xp: 0,
        speed_unlocked: false,
    }
}

fn all_skills() -> Vec<Skill> {
    vec![
        Skill::Armor,
        Skill::Sword,
        Skill::Shield,
        Skill::Pants,
        Skill::Mirror,
        Skill::Healing,
        Skill::Speed,
    ]
}

#[test]
fn first_point_of_armor_xp_gives_one_level() {
    let mut skills = PlayerSkills::new();
    skills.unlock_skill(Skill::Armor);
    assert_eq!(skills.get(Skill::Armor), 0);
    assert_eq!(skills.xp_needed(Skill::Armor), 1_000_000);
    assert!(skills.add_xp(Skill::Armor, XP).is_ok());
    assert_eq!(skills.get(Skill::Armor), 1);
    assert_eq!(skills.get_xp(Skill::Armor), 0);
    assert_eq!(skills.get_xp(Skill::Armor) as f32 / XP as f32, 0.0);
    let mut buf: Vec<LevelUpEvent> = Vec::new();
    skills.drain_levelups(&mut buf);
    assert_eq!(buf, vec![LevelUpEvent { num_levels: 1, skill: Skill::Armor }]);
}

#[test]
fn skills_come_in_ledger_order_with_their_names() {
    assert_eq!(Skill::iter(), all_skills());
    let names: Vec<String> = Skill::iter().into_iter().map(|s| s.to_string()).collect();
    assert_eq!(names, vec!["Armor", "Sword", "Shield", "Pants", "Mirror", "Healing", "Speed"]);
    assert_eq!(Skill::Mirror.name(), "Mirror");
}

#[test]
fn fresh_ledger_is_locked_and_empty() {
    let skills = PlayerSkills::default();
    for skill in all_skills() {
        assert_eq!(skills.get(skill), 0);
        assert_eq!(skills.get_highest(skill), 0);
        assert_eq!(skills.get_xp(skill), 0);
        assert_eq!(skills.get_stored_xp(skill), 0);
        assert!(!skills.get_unlocked(skill));
    }
}

#[test]
fn xp_needed_is_one_point_and_a_fifth_per_level() {
    let mut save = empty_save();
    save.sword_level = 5;
    save.pants_level = 3;
    save.speed_level = u64::MAX;
    let skills = PlayerSkills::from_save_data(&save);
    assert_eq!(skills.xp_needed(Skill::Armor), 1_000_000);
    assert_eq!(skills.xp_needed(Skill::Sword), 2_000_000);
    assert_eq!(skills.xp_needed(Skill::Pants), 1_600_000);
    assert_eq!(skills.xp_needed(Skill::Sword) as f32 / XP as f32, 1.0 + 5.0 / 5.0);
    assert_eq!(
        skills.xp_needed(Skill::Speed),
        1_000_000u128 + 200_000u128 * u64::MAX as u128
    );
}

#[test]
fn xp_stays_below_the_next_level_after_every_grant() {
    let mut skills = PlayerSkills::new();
    skills.unlock_skill(Skill::Sword);
    let grants: [u64; 8] = [0, 1, 999_999, 1, 3 * XP, 250_000, 40 * XP, 7];
    for grant in grants {
        assert!(skills.add_xp(Skill::Sword, grant).is_ok());
        assert!((skills.get_xp(Skill::Sword) as u128) < skills.xp_needed(Skill::Sword));
    }
    assert_eq!(skills.get(Skill::Sword), 17);
}

#[test]
fn one_grant_can_pay_for_several_levels() {
    let mut skills = PlayerSkills::new();
    skills.unlock_skill(Skill::Pants);
    // levels 0 to 5 cost 1.0 + 1.2 + 1.4 + 1.6 + 1.8 + 2.0 = 9.0 points
    assert!(skills.add_xp(Skill::Pants, 10 * XP).is_ok());
    assert_eq!(skills.get(Skill::Pants), 6);
    assert_eq!(skills.get_xp(Skill::Pants), XP);
    assert_eq!(skills.get_highest(Skill::Pants), 0);
    let events = send_levelup_events(&mut skills);
    assert_eq!(events, vec![LevelUpEvent { num_levels: 6, skill: Skill::Pants }]);
}

#[test]
fn locked_skill_takes_no_xp() {
    let mut save = empty_save();
    save.shield_level = 4;
    save.shield_xp = 123;
    let mut skills = PlayerSkills::from_save_data(&save);
    assert!(skills.add_xp(Skill::Shield, 50 * XP).is_ok());
    assert_eq!(skills.get(Skill::Shield), 4);
    assert_eq!(skills.get_xp(Skill::Shield), 123);
    assert!(send_levelup_events(&mut skills).is_empty());
}

#[test]
fn unlocking_is_idempotent() {
    let mut skills = PlayerSkills::new();
    assert!(!skills.get_unlocked(Skill::Mirror));
    skills.unlock_skill(Skill::Mirror);
    assert!(skills.get_unlocked(Skill::Mirror));
    skills.unlock_skill(Skill::Mirror);
    assert!(skills.get_unlocked(Skill::Mirror));
    assert!(!skills.get_unlocked(Skill::Armor));
}

#[test]
fn stored_level_speeds_up_learning() {
    let mut save = empty_save();
    save.armor_level = 100;
    save.armor_unlocked = true;
    save.sword_level = 2;
    save.sword_unlocked = true;
    let mut skills = PlayerSkills::from_save_data(&save);
    // 1 + sqrt(100 / 100) = 2
    assert!(skills.add_xp(Skill::Armor, XP).is_ok());
    assert_eq!(skills.get_xp(Skill::Armor), 2 * XP);
    assert_eq!(skills.get(Skill::Armor), 100);
    // 1 + sqrt(2 / 100) = 1.141421...
    assert!(skills.add_xp(Skill::Sword, XP).is_ok());
    assert_eq!(skills.get_xp(Skill::Sword), 1_141_421);
    assert_eq!(wizards_spiral::skills::player_skills::scale_xp(XP, 2), 1_141_421);
    assert_eq!(wizards_spiral::skills::player_skills::scale_xp(3 * XP, 0), 3 * XP as u128);
}

#[test]
fn level_ups_are_paid_from_the_running_cycle_first() {
    let mut save = empty_save();
    save.healing_xp = 500_000;
    save.healing_unlocked = true;
    let mut skills = PlayerSkills::from_save_data(&save);
    assert!(skills.add_xp(Skill::Healing, 700_000).is_ok());
    assert_eq!(skills.get(Skill::Healing), 1);
    assert_eq!(skills.get_xp(Skill::Healing), 200_000);
    assert_eq!(skills.get_stored_xp(Skill::Healing), 200_000);
    assert_eq!(skills.get_highest(Skill::Healing), 0);
}

#[test]
fn grant_beyond_the_range_is_refused() {
    let mut save = empty_save();
    save.speed_xp = u64::MAX;
    save.speed_level = u64::MAX;
    save.speed_unlocked = true;
    let mut skills = PlayerSkills::from_save_data(&save);
    assert_eq!(skills.add_xp(Skill::Speed, 1), Err(SkillError::XpOverflow));
    assert_eq!(skills.get_xp(Skill::Speed), u64::MAX);
    assert_eq!(skills.get(Skill::Speed), u64::MAX);
    assert_eq!(skills.add_xp(Skill::Speed, 0), Ok(()));
}

#[test]
fn end_cycle_folds_and_is_idempotent() {
    let mut skills = PlayerSkills::new();
    skills.unlock_skill(Skill::Armor);
    assert!(skills.add_xp(Skill::Armor, 2_500_000).is_ok());
    assert_eq!(skills.get(Skill::Armor), 2);
    assert_eq!(skills.get_highest(Skill::Armor), 0);
    assert_eq!(skills.get_stored_xp(Skill::Armor), 0);
    skills.end_cycle();
    let once: Vec<(u64, u64, u64, u64, bool)> = all_skills()
        .into_iter()
        .map(|s| {
            (
                skills.get(s),
                skills.get_highest(s),
                skills.get_xp(s),
                skills.get_stored_xp(s),
                skills.get_unlocked(s),
            )
        })
        .collect();
    assert_eq!(once[0], (2, 2, 300_000, 300_000, true));
    skills.end_cycle();
    let twice: Vec<(u64, u64, u64, u64, bool)> = all_skills()
        .into_iter()
        .map(|s| {
            (
                skills.get(s),
                skills.get_highest(s),
                skills.get_xp(s),
                skills.get_stored_xp(s),
                skills.get_unlocked(s),
            )
        })
        .collect();
    assert_eq!(once, twice);
}

#[test]
fn second_drain_is_empty() {
    let mut skills = PlayerSkills::new();
    skills.unlock_skill(Skill::Speed);
    skills.unlock_skill(Skill::Armor);
    assert!(skills.add_xp(Skill::Speed, XP).is_ok());
    assert!(skills.add_xp(Skill::Armor, 3 * XP).is_ok());
    let mut buf: Vec<LevelUpEvent> = Vec::new();
    skills.drain_levelups(&mut buf);
    assert_eq!(
        buf,
        vec![
            LevelUpEvent { num_levels: 2, skill: Skill::Armor },
            LevelUpEvent { num_levels: 1, skill: Skill::Speed },
        ]
    );
    let mut again: Vec<LevelUpEvent> = Vec::new();
    skills.drain_levelups(&mut again);
    assert!(again.is_empty());
    assert_eq!(skills.get(Skill::Armor), 2);
}

#[test]
fn derived_multipliers_follow_their_formulas() {
    let mut save = empty_save();
    save.armor_level = 100;
    save.shield_level = 10;
    save.shield_unlocked = true;
    save.mirror_level = 30;
    save.mirror_unlocked = true;
    save.pants_level = 50;
    save.healing_level = 14;
    let skills = PlayerSkills::from_save_data(&save);
    assert_eq!(skills.damage_taken(), 500_000);
    assert_eq!(skills.damage_taken() as f32 / 1_000_000.0, 0.5);
    // 0.65 - 500 / 1100
    assert_eq!(skills.block_chance(), 650_000 - 454_545);
    // 0.75 - 700 / 1900
    assert_eq!(skills.reflect_chance(), 750_000 - 368_421);
    // 1 + sqrt(50 / 10)
    assert_eq!(skills.mass(), 1_000_000 + 2_236_067);
    // 1 + sqrt(50 / 50)
    assert_eq!(skills.max_health(), 2_000_000);
    // 0.5 - 98 / 396
    assert_eq!(skills.healing(), 500_000 - 247_474);
}

#[test]
fn derived_multipliers_at_level_zero() {
    let mut skills = PlayerSkills::new();
    assert_eq!(skills.damage_taken(), 1_000_000);
    assert_eq!(skills.block_chance(), 0);
    assert_eq!(skills.reflect_chance(), 0);
    assert_eq!(skills.mass(), 1_000_000);
    assert_eq!(skills.max_health(), 1_000_000);
    assert_eq!(skills.healing(), 10_000);
    skills.unlock_skill(Skill::Shield);
    skills.unlock_skill(Skill::Mirror);
    assert_eq!(skills.block_chance(), 150_000);
    assert_eq!(skills.reflect_chance(), 50_000);
}

#[test]
fn derived_multipliers_at_the_highest_level() {
    let mut save = empty_save();
    save.armor_level = u64::MAX;
    save.shield_level = u64::MAX;
    save.shield_unlocked = true;
    save.mirror_level = u64::MAX;
    save.mirror_unlocked = true;
    save.pants_level = u64::MAX;
    save.healing_level = u64::MAX;
    let skills = PlayerSkills::from_save_data(&save);
    assert_eq!(skills.damage_taken(), 0);
    assert_eq!(skills.block_chance(), 650_000);
    assert_eq!(skills.reflect_chance(), 750_000);
    assert_eq!(skills.healing(), 500_000);
    assert_eq!(skills.mass(), 1_000_000 + 1_358_187_913_129_459);
}

#[test]
fn unlock_events_announce_first_unlocks_once() {
    let mut skills = PlayerSkills::new();
    skills.unlock_skill(Skill::Armor);
    let events = vec![
        SkillUnlockedEvent { skill: Skill::Armor },
        SkillUnlockedEvent { skill: Skill::Sword },
        SkillUnlockedEvent { skill: Skill::Sword },
        SkillUnlockedEvent { skill: Skill::Mirror },
    ];
    let first = process_unlock_events(&mut skills, &events);
    assert_eq!(
        first,
        vec![
            SkillFirstUnlockedEvent { skill: Skill::Sword },
            SkillFirstUnlockedEvent { skill: Skill::Mirror },
        ]
    );
    assert!(skills.get_unlocked(Skill::Armor));
    assert!(skills.get_unlocked(Skill::Sword));
    assert!(skills.get_unlocked(Skill::Mirror));
    assert!(!skills.get_unlocked(Skill::Pants));
}

#[test]
fn xp_events_are_granted_in_turn() {
    let mut save = empty_save();
    save.armor_unlocked = true;
    save.speed_unlocked = true;
    save.speed_xp = u64::MAX;
    let mut skills = PlayerSkills::from_save_data(&save);
    let events = vec![
        SkillXpEvent { skill: Skill::Armor, xp: XP },
        SkillXpEvent { skill: Skill::Sword, xp: XP },
        SkillXpEvent { skill: Skill::Speed, xp: XP },
        SkillXpEvent { skill: Skill::Armor, xp: XP },
    ];
    let refused = process_xp_events(&mut skills, &events);
    assert_eq!(refused, 1);
    assert_eq!(skills.get(Skill::Armor), 1);
    assert_eq!(skills.get_xp(Skill::Armor), XP);
    assert_eq!(skills.get(Skill::Sword), 0);
    assert_eq!(skills.get_xp(Skill::Sword), 0);
    assert_eq!(skills.get_xp(Skill::Speed), u64::MAX);
}

#[test]
fn fights_turn_into_xp_events() {
    let projectile = Projectile {
        target: Entity(1),
        source: Entity(2),
        speed: 10,
        damage: 5,
        homing: false,
        lifetime: 9,
    };
    let events = send_xp_events(
        &vec![
            DamageEvent::Player { damage: 7 },
            DamageEvent::Enemy { entity: Entity(2), damage: 3 },
            DamageEvent::Player { damage: 1 },
        ],
        &vec![MeleeAttackEvent { player: Entity(1), enemy: Entity(2) }],
        &vec![DamageBlockedEvent {}, DamageBlockedEvent {}],
        &vec![ProjectileReflectEvent { projectile }],
        &vec![HealEvent],
    );
    let skills: Vec<Skill> = events.iter().map(|e| e.skill).collect();
    assert_eq!(
        skills,
        vec![
            Skill::Armor,
            Skill::Armor,
            Skill::Sword,
            Skill::Pants,
            Skill::Shield,
            Skill::Shield,
            Skill::Mirror,
            Skill::Healing,
        ]
    );
    assert!(events.iter().all(|e| e.xp == XP));
    assert!(send_xp_events(&vec![], &vec![], &vec![], &vec![], &vec![]).is_empty());
}

#[test]
fn running_earns_speed_xp_by_the_second() {
    assert_eq!(speed_xp(0), None);
    assert_eq!(speed_xp(1), Some(SkillXpEvent { skill: Skill::Speed, xp: XP }));
    assert_eq!(speed_xp(3), Some(SkillXpEvent { skill: Skill::Speed, xp: 3 * XP }));
    assert_eq!(
        speed_xp(u32::MAX),
        Some(SkillXpEvent { skill: Skill::Speed, xp: u32::MAX as u64 * XP })
    );
}

#[test]
fn speed_is_worked_out_anew_after_a_speed_level_up() {
    assert!(!update_player_speed(&vec![]));
    assert!(!update_player_speed(&vec![LevelUpEvent { num_levels: 1, skill: Skill::Armor }]));
    assert!(update_player_speed(&vec![
        LevelUpEvent { num_levels: 1, skill: Skill::Armor },
        LevelUpEvent { num_levels: 2, skill: Skill::Speed },
    ]));
}

#[test]
fn healing_restores_a_share_of_the_maximum_per_tick() {
    let mut save = empty_save();
    save.healing_unlocked = true;
    let skills = PlayerSkills::from_save_data(&save);
    // at level 0 one tick restores one hundredth of the maximum
    let mut health = PlayerHealth { current: 50_000_000, maximum: 100_000_000, dead: false };
    assert_eq!(healing(&mut health, &skills, 3), 3);
    assert_eq!(health.current, 53_000_000);
    // no more than is missing
    let mut nearly = PlayerHealth { current: 99_500_000, maximum: 100_000_000, dead: false };
    assert_eq!(healing(&mut nearly, &skills, 3), 1);
    assert_eq!(nearly.current, 100_000_000);
    // the dead are not healed
    let mut dead = PlayerHealth { current: 0, maximum: 100_000_000, dead: true };
    assert_eq!(healing(&mut dead, &skills, 2), 0);
    assert_eq!(dead.current, 0);
    // nor is anyone while the skill is locked
    let locked = PlayerSkills::new();
    let mut hurt = PlayerHealth { current: 1, maximum: 100_000_000, dead: false };
    assert_eq!(healing(&mut hurt, &locked, 5), 0);
    assert_eq!(hurt.current, 1);
}
