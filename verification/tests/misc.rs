use wizards_spiral::camera::follow_player;
use wizards_spiral::cycles::CycleCounter;
use wizards_spiral::enemy::{EnemyHealth, EnemyStats, EnemyType};
use wizards_spiral::geometry::{Point, Rect};
use wizards_spiral::healthbars::{healthbar, update_healthbar, Healthbar, HealthbarLook};
use wizards_spiral::menus::{
    button_step, continue_game, new_game, setup_outro, ButtonLook, ButtonStep, Interaction,
    PageTurn, Story, StoryState,
};
use wizards_spiral::physics::Entity;
use wizards_spiral::player::PlayerHealth;
use wizards_spiral::room::{CardinalDirection, CurrentRoom, RoomInfo};
use wizards_spiral::save_data::SaveData;
use wizards_spiral::skills::{PlayerSkills, Skill};
use wizards_spiral::states::GameState;
use wizards_spiral::text::{room_text, spawn_next_room_text};
use wizards_spiral::util::{highlight_text, to_decimal, TextSpan};

fn story(pages: &[&str]) -> Story {
    Story { pages: pages.iter().map(|p| p.to_string()).collect() }
}

fn plain_stats() -> EnemyStats {
    EnemyStats {
        enemy_type: EnemyType::Melee { melee_damage: 1 },
        health: 1,
        speed: 1,
        mass: 1,
        alert_radius: 1,
        chase_radius: 1,
        desired_distance: 1,
    }
}

fn room_named(name: &str) -> CurrentRoom {
    CurrentRoom {
        info: RoomInfo {
            name: name.to_string(),
            rect: Rect { min: Point { x: -400, y: -300 }, max: Point { x: 400, y: 300 } },
            num_melee_enemies: 0,
            num_ranged_enemies: 0,
            num_obstacles: 0,
            boss: false,
            north: Some("Dark Forest".to_string()),
            south: None,
            east: None,
            west: Some("Old Well".to_string()),
        },
        melee_enemy_stats: plain_stats(),
        ranged_enemy_stats: plain_stats(),
        boss_stats: None,
    }
}

fn spans(text: &str) -> Vec<(String, bool)> {
    highlight_text(text).into_iter().map(|s| (s.value, s.highlight)).collect()
}

fn pair(value: &str, highlight: bool) -> (String, bool) {
    (value.to_string(), highlight)
}

#[test]
fn camera_follows_the_player_within_the_room() {
    let rect = Rect { min: Point { x: -400, y: -300 }, max: Point { x: 400, y: 300 } };
    let view = Point { x: 300, y: 175 };
    let at = |x: i32, y: i32| Some(Point { x, y });
    assert_eq!(follow_player(Some(&rect), view, None), Point { x: 0, y: 0 });
    assert_eq!(follow_player(None, view, None), Point { x: 0, y: 0 });
    assert_eq!(follow_player(None, view, at(900, -900)), Point { x: 900, y: -900 });
    assert_eq!(follow_player(Some(&rect), view, at(10, 20)), Point { x: 10, y: 20 });
    assert_eq!(follow_player(Some(&rect), view, at(350, 290)), Point { x: 100, y: 125 });
    assert_eq!(follow_player(Some(&rect), view, at(-350, -290)), Point { x: -100, y: -125 });
    // a room that is narrower than the view
    let wide = Point { x: 500, y: 175 };
    assert_eq!(follow_player(Some(&rect), wide, at(350, 20)), Point { x: 0, y: 20 });
    let edge = Rect { min: Point { x: i32::MAX - 1, y: 0 }, max: Point { x: i32::MAX, y: 10 } };
    assert_eq!(follow_player(Some(&edge), view, at(5, 5)), Point { x: 0, y: 0 });
    let odd = Point { x: -10, y: -10 };
    assert_eq!(follow_player(Some(&rect), odd, at(405, -500)), Point { x: 405, y: -310 });
}

#[test]
fn story_is_read_page_by_page() {
    let (_, mut state, next) = new_game(story(&["one", "two", "three"]));
    assert_eq!(next, GameState::Intro);
    assert_eq!(state.page, 0);
    assert_eq!(state.prev_state, Some(GameState::MainMenu));
    assert_eq!(state.next_state, GameState::RestartCycle);
    assert_eq!(state.prev_page(), PageTurn::Leave(GameState::MainMenu));
    assert_eq!(state.page, 0);
    assert_eq!(state.next_page(), PageTurn::Show(1));
    assert_eq!(state.next_page(), PageTurn::Show(2));
    assert_eq!(state.page, 2);
    assert_eq!(state.next_page(), PageTurn::Leave(GameState::RestartCycle));
    assert_eq!(state.page, 2);
    assert_eq!(state.prev_page(), PageTurn::Show(1));
    assert_eq!(state.page, 1);
    assert_eq!(state.story.pages[state.page], "two");
    assert_eq!(continue_game(), GameState::RestartCycle);
}

#[test]
fn outro_has_no_way_back() {
    let mut state = setup_outro(story(&["the end"]));
    assert_eq!(state.prev_state, None);
    assert_eq!(state.prev_page(), PageTurn::Stay);
    assert_eq!(state.next_page(), PageTurn::Leave(GameState::MainMenu));
    let mut empty: StoryState<GameState> = setup_outro(story(&[]));
    assert_eq!(empty.next_page(), PageTurn::Leave(GameState::MainMenu));
    assert_eq!(empty.prev_page(), PageTurn::Stay);
}

#[test]
fn health_bar_shows_for_the_hurt() {
    assert_eq!(healthbar(100, 100), HealthbarLook { visible: false, fraction: 1_000_000 });
    assert_eq!(healthbar(50, 100), HealthbarLook { visible: true, fraction: 500_000 });
    assert_eq!(healthbar(1, 3), HealthbarLook { visible: true, fraction: 333_333 });
    assert_eq!(healthbar(0, 100), HealthbarLook { visible: false, fraction: 0 });
    assert_eq!(healthbar(-5, 100), HealthbarLook { visible: false, fraction: 0 });
    assert_eq!(healthbar(150, 100), HealthbarLook { visible: false, fraction: 1_000_000 });
    assert_eq!(healthbar(5, 0), HealthbarLook { visible: false, fraction: 0 });
    assert_eq!(
        healthbar(i64::MAX - 1, i64::MAX),
        HealthbarLook { visible: true, fraction: 999_999 }
    );
    let player = PlayerHealth { current: 25, maximum: 100, dead: false };
    assert_eq!(
        update_healthbar(&Healthbar::Player, &player, None),
        Some(HealthbarLook { visible: true, fraction: 250_000 })
    );
    let bar = Healthbar::Enemy { entity: Entity(3) };
    assert_eq!(update_healthbar(&bar, &player, None), None);
    assert_eq!(
        update_healthbar(&bar, &player, Some(EnemyHealth { maximum: 8, current: 6 })),
        Some(HealthbarLook { visible: true, fraction: 750_000 })
    );
}

#[test]
fn stars_mark_what_stands_out() {
    assert_eq!(
        spans("Press *Space* to open the *skills* menu"),
        vec![
            pair("Press ", false),
            pair("Space", true),
            pair(" to open the ", false),
            pair("skills", true),
            pair(" menu", false),
        ]
    );
    assert_eq!(spans(""), vec![pair("", false)]);
    assert_eq!(spans("plain"), vec![pair("plain", false)]);
    assert_eq!(spans("*"), vec![pair("", false), pair("", true)]);
    assert_eq!(spans("**a"), vec![pair("", false), pair("", true), pair("a", false)]);
    assert_eq!(spans("über *žluťoučký*"), vec![pair("über ", false), pair("žluťoučký", true), pair("", false)]);
    assert_eq!(
        highlight_text("a*b")[1],
        TextSpan { value: "b".to_string(), highlight: true }
    );
}

#[test]
fn numbers_are_written_in_decimal() {
    assert_eq!(to_decimal(0), "0");
    assert_eq!(to_decimal(7), "7");
    assert_eq!(to_decimal(10), "10");
    assert_eq!(to_decimal(1234567890), "1234567890");
    assert_eq!(to_decimal(u64::MAX as u128), "18446744073709551615");
    assert_eq!(to_decimal(u128::MAX), "340282366920938463463374607431768211455");
}

#[test]
fn skills_describe_themselves() {
    let save = SaveData {
        audio_muted: false,
        cycles: 0,
        armor_level: 100,
        armor_xp: 0,
        armor_unlocked: true,
        sword_level: 7,
        sword_xp: 0,
        sword_unlocked: true,
        shield_level: 10,
        shield_xp: 0,
        shield_unlocked: true,
        pants_level: 50,
        pants_xp: 0,
        pants_unlocked: true,
        mirror_level: 30,
        mirror_xp: 0,
        mirror_unlocked: false,
        healing_level: 14,
        healing_xp: 0,
        healing_unlocked: true,
        speed_level: 24,
        speed_xp: 0,
        speed_unlocked: true,
    };
    let skills = PlayerSkills::from_save_data(&save);
    let describe = |skill: Skill| skills.description(skill, 11_107_000, 2_000_000);
    assert_eq!(describe(Skill::Armor), "Trusty Armor - Level *100*\nReduces damage taken by *50%*");
    assert_eq!(describe(Skill::Sword), "Soleil's Sword - Level *7*\nAttacks deal *11* damage");
    assert_eq!(describe(Skill::Shield), "Prince's Shield - Level *10*\nBlocks *19%* of attacks");
    assert_eq!(
        describe(Skill::Pants),
        "Wulf's Pants - Level *50*\nIncreases maximum health by *100%* and *improves knockback*"
    );
    assert_eq!(
        describe(Skill::Mirror),
        "Mirror Witch's Armor Polish - Level *30*\nReflects *0%* of projectiles"
    );
    assert_eq!(
        describe(Skill::Healing),
        "Amanon's Tears - Level *14*\nRestores *25%* health every 3 seconds"
    );
    assert_eq!(describe(Skill::Speed), "Artist's Boots - Level *24*\nMove *100%* faster");
    assert_eq!(
        skills.description(Skill::Speed, 0, 999_999),
        "Artist's Boots - Level *24*\nMove *0%* faster"
    );
}

#[test]
fn rooms_greet_the_player_by_name() {
    let lines = room_text(&room_named("Dark Forest"), &CycleCounter { count: 3 });
    assert_eq!(lines, vec!["Dark Forest".to_string()]);
    let lines = room_text(&room_named("Lovely Cottage"), &CycleCounter { count: 3 });
    assert_eq!(lines, vec!["Lovely Cottage".to_string(), "Cycle 4".to_string()]);
    let lines = room_text(&room_named("Lovely Cottage"), &CycleCounter { count: u64::MAX });
    assert_eq!(lines[1], "Cycle 18446744073709551616");
}

#[test]
fn exits_are_signposted() {
    let signs = spawn_next_room_text(&room_named("Lovely Cottage"));
    let read: Vec<(CardinalDirection, String)> =
        signs.into_iter().map(|s| (s.side, s.text)).collect();
    assert_eq!(
        read,
        vec![
            (CardinalDirection::North, "To Dark Forest".to_string()),
            (CardinalDirection::West, "To Old Well".to_string()),
        ]
    );
}

#[test]
fn button_fires_when_it_is_let_go() {
    let pressed = Some(Interaction::Pressed);
    assert_eq!(
        button_step(pressed, Interaction::Hovered),
        ButtonStep { look: ButtonLook::Hovered, fires: true }
    );
    assert_eq!(
        button_step(Some(Interaction::Hovered), Interaction::Hovered),
        ButtonStep { look: ButtonLook::Hovered, fires: false }
    );
    assert_eq!(
        button_step(None, Interaction::Hovered),
        ButtonStep { look: ButtonLook::Hovered, fires: false }
    );
    assert_eq!(
        button_step(pressed, Interaction::Pressed),
        ButtonStep { look: ButtonLook::Pressed, fires: false }
    );
    assert_eq!(
        button_step(pressed, Interaction::Away),
        ButtonStep { look: ButtonLook::Base, fires: false }
    );
}
