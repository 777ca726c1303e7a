use last_commit::{
    bug_type_for_spawn, cookie_message, enemy_attack, health_text, input_direction,
    integer_to_text, interact_with_npc, inventory_text, key_message, natural_to_text,
    pickup_items, spawn_first_floor, update_hud, AppState, BugType, Enemy, GameEvent, Item,
    ItemKind, MoveKeys, Npc, NpcRole, PickupAction, Player, StepDirection,
};

fn player(health: i32, inventory: Vec<ItemKind>) -> Player {
    Player { health, inventory }
}

fn no_keys() -> MoveKeys {
    MoveKeys {
        w: false,
        a: false,
        s: false,
        d: false,
        up: false,
        left: false,
        down: false,
        right: false,
    }
}

// ------------------------------------------------------------ bug contact

#[test]
fn attack_without_contact_changes_nothing() {
    let mut p = player(100, vec![ItemKind::USBKey]);
    let over = enemy_attack(&mut p, &vec![false, false, false]);
    assert!(!over);
    assert_eq!(p.health, 100);
    assert_eq!(p.inventory, vec![ItemKind::USBKey]);
}

#[test]
fn attack_takes_one_point_per_bug_in_range() {
    let mut p = player(100, vec![]);
    let over = enemy_attack(&mut p, &vec![true, false, true, true, false]);
    assert!(!over);
    assert_eq!(p.health, 97);
}

#[test]
fn attack_that_empties_health_ends_the_game() {
    let mut p = player(2, vec![]);
    let over = enemy_attack(&mut p, &vec![true, true]);
    assert!(over);
    assert_eq!(p.health, 0);
}

#[test]
fn attack_below_zero_still_ends_the_game() {
    let mut p = player(1, vec![]);
    let over = enemy_attack(&mut p, &vec![true, false, true]);
    assert!(over);
    assert_eq!(p.health, -1);
}

#[test]
fn no_contact_does_not_end_the_game_even_at_zero_health() {
    let mut p = player(0, vec![]);
    let over = enemy_attack(&mut p, &vec![false]);
    assert!(!over);
    assert_eq!(p.health, 0);
}

#[test]
fn attack_with_no_bugs() {
    let mut p = player(5, vec![]);
    assert!(!enemy_attack(&mut p, &vec![]));
    assert_eq!(p.health, 5);
}

// ------------------------------------------------------------ pickups

#[test]
fn nothing_is_picked_up_without_the_key() {
    let mut p = player(50, vec![]);
    let items = vec![ItemKind::Cookie, ItemKind::Coffee, ItemKind::USBKey];
    let actions = pickup_items(&mut p, false, &items, &vec![true, true, true]);
    assert_eq!(
        actions,
        vec![PickupAction::Untouched, PickupAction::Untouched, PickupAction::Untouched]
    );
    assert_eq!(p.health, 50);
    assert!(p.inventory.is_empty());
}

#[test]
fn cookie_gives_five_health_and_stays() {
    let mut p = player(100, vec![]);
    let actions = pickup_items(&mut p, true, &vec![ItemKind::Cookie], &vec![true]);
    assert_eq!(actions, vec![PickupAction::EatCookie { health_after: 105 }]);
    assert_eq!(p.health, 105);
}

#[test]
fn two_cookies_report_running_health() {
    let mut p = player(10, vec![]);
    let items = vec![ItemKind::Cookie, ItemKind::Coffee, ItemKind::Cookie];
    let actions = pickup_items(&mut p, true, &items, &vec![true, true, true]);
    assert_eq!(
        actions,
        vec![
            PickupAction::EatCookie { health_after: 15 },
            PickupAction::DrinkCoffee,
            PickupAction::EatCookie { health_after: 20 },
        ]
    );
    assert_eq!(p.health, 20);
}

#[test]
fn items_out_of_reach_are_left_alone() {
    let mut p = player(100, vec![]);
    let items = vec![ItemKind::Cookie, ItemKind::USBKey, ItemKind::Coffee];
    let actions = pickup_items(&mut p, true, &items, &vec![false, false, true]);
    assert_eq!(
        actions,
        vec![PickupAction::Untouched, PickupAction::Untouched, PickupAction::DrinkCoffee]
    );
    assert_eq!(p.health, 100);
    assert!(p.inventory.is_empty());
}

#[test]
fn keys_go_to_the_end_of_the_inventory() {
    let mut p = player(100, vec![ItemKind::Coffee]);
    let items = vec![ItemKind::USBKey, ItemKind::USBKey];
    let actions = pickup_items(&mut p, true, &items, &vec![true, true]);
    assert_eq!(actions, vec![PickupAction::TakeKey, PickupAction::TakeKey]);
    assert_eq!(p.inventory, vec![ItemKind::Coffee, ItemKind::USBKey, ItemKind::USBKey]);
    assert_eq!(p.health, 100);
}

#[test]
fn coffee_leaves_health_and_inventory() {
    let mut p = player(42, vec![]);
    let actions = pickup_items(&mut p, true, &vec![ItemKind::Coffee], &vec![true]);
    assert_eq!(actions, vec![PickupAction::DrinkCoffee]);
    assert_eq!(p.health, 42);
    assert!(p.inventory.is_empty());
}

// ------------------------------------------------------------ talking

fn npc(role: NpcRole, line: &str) -> Npc {
    Npc { role, dialog: vec![line.to_string()], recruited: false }
}

#[test]
fn people_in_reach_say_their_first_line() {
    let npcs = vec![
        npc(NpcRole::Sysadmin, "hello"),
        npc(NpcRole::Tester, "it is a feature"),
        npc(NpcRole::PM, "deadline"),
    ];
    let lines = interact_with_npc(true, &npcs, &vec![true, false, true]);
    assert_eq!(lines, vec!["Sysadmin: hello".to_string(), "PM: deadline".to_string()]);
}

#[test]
fn nobody_talks_without_the_key() {
    let npcs = vec![npc(NpcRole::Tester, "x")];
    assert!(interact_with_npc(false, &npcs, &vec![true]).is_empty());
}

#[test]
fn only_the_first_line_is_said() {
    let npcs = vec![Npc {
        role: NpcRole::Tester,
        dialog: vec!["first".to_string(), "second".to_string()],
        recruited: true,
    }];
    assert_eq!(interact_with_npc(true, &npcs, &vec![true]), vec!["Tester: first".to_string()]);
}

#[test]
fn first_floor_sysadmin_line() {
    let plan = spawn_first_floor();
    let lines = interact_with_npc(true, &plan.npcs, &vec![true, false]);
    assert_eq!(
        lines,
        vec!["Sysadmin: Ну и бардак... Серверная в подвале, ключ USB-шный потерял.".to_string()]
    );
}

// ------------------------------------------------------------ walking

#[test]
fn forward_is_negative_z() {
    let keys = MoveKeys { w: true, ..no_keys() };
    assert_eq!(input_direction(keys), StepDirection { x: 0, z: -1 });
}

#[test]
fn opposite_keys_cancel() {
    let keys = MoveKeys { w: true, s: true, a: true, right: true, ..no_keys() };
    assert_eq!(input_direction(keys), StepDirection { x: 0, z: 0 });
}

#[test]
fn arrows_move_like_letters() {
    let arrows = MoveKeys { down: true, right: true, ..no_keys() };
    let letters = MoveKeys { s: true, d: true, ..no_keys() };
    assert_eq!(input_direction(arrows), StepDirection { x: 1, z: 1 });
    assert_eq!(input_direction(arrows), input_direction(letters));
}

#[test]
fn letter_and_arrow_together_count_once() {
    let keys = MoveKeys { a: true, left: true, up: true, ..no_keys() };
    assert_eq!(input_direction(keys), StepDirection { x: -1, z: -1 });
}

#[test]
fn no_keys_no_step() {
    assert_eq!(input_direction(no_keys()), StepDirection { x: 0, z: 0 });
}

// ------------------------------------------------------------ text

#[test]
fn integers_are_written_in_decimal() {
    assert_eq!(integer_to_text(0), "0");
    assert_eq!(integer_to_text(7), "7");
    assert_eq!(integer_to_text(100), "100");
    assert_eq!(integer_to_text(-42), "-42");
    assert_eq!(integer_to_text(i32::MAX), i32::MAX.to_string());
    assert_eq!(integer_to_text(i32::MIN), i32::MIN.to_string());
    assert_eq!(natural_to_text(u32::MAX), u32::MAX.to_string());
    assert_eq!(natural_to_text(1000), "1000");
}

#[test]
fn health_label() {
    assert_eq!(health_text(100), "Health: 100");
    assert_eq!(health_text(-3), "Health: -3");
}

#[test]
fn empty_inventory_label() {
    assert_eq!(inventory_text(&vec![]), "Inventory: empty");
}

#[test]
fn inventory_label_lists_items() {
    assert_eq!(inventory_text(&vec![ItemKind::USBKey]), "Inventory: USBKey");
    assert_eq!(
        inventory_text(&vec![ItemKind::USBKey, ItemKind::Cookie, ItemKind::Coffee]),
        "Inventory: USBKey, Cookie, Coffee"
    );
}

#[test]
fn hud_shows_player() {
    let p = player(95, vec![ItemKind::USBKey, ItemKind::USBKey]);
    let hud = update_hud(&p);
    assert_eq!(hud.health, "Health: 95");
    assert_eq!(hud.inventory, "Inventory: USBKey, USBKey");
}

#[test]
fn pickup_messages() {
    assert_eq!(cookie_message(105), "+5 здоровья (текущее: 105)");
    assert_eq!(key_message(), "USB-ключ подобран!");
}

#[test]
fn names_match_debug() {
    for k in [ItemKind::Cookie, ItemKind::Coffee, ItemKind::USBKey] {
        assert_eq!(k.name(), format!("{:?}", k));
    }
    for r in [NpcRole::Sysadmin, NpcRole::Tester, NpcRole::PM] {
        assert_eq!(r.name(), format!("{:?}", r));
    }
}

// ------------------------------------------------------------ first floor

#[test]
fn bug_kinds_rotate() {
    assert_eq!(bug_type_for_spawn(0), BugType::NullPointer);
    assert_eq!(bug_type_for_spawn(1), BugType::MemoryLeak);
    assert_eq!(bug_type_for_spawn(2), BugType::RaceCondition);
    assert_eq!(bug_type_for_spawn(3), BugType::NullPointer);
    assert_eq!(bug_type_for_spawn(4), BugType::MemoryLeak);
}

#[test]
fn first_floor_contents() {
    let plan = spawn_first_floor();
    assert_eq!(plan.player.health, 100);
    assert!(plan.player.inventory.is_empty());
    let kinds = [
        BugType::NullPointer,
        BugType::MemoryLeak,
        BugType::RaceCondition,
        BugType::NullPointer,
        BugType::MemoryLeak,
    ];
    assert_eq!(plan.enemies.len(), 5);
    for (enemy, kind) in plan.enemies.iter().zip(kinds) {
        assert_eq!(*enemy, Enemy { bug_type: kind, health: 30, damage: 10 });
    }
    assert_eq!(plan.items, vec![Item { kind: ItemKind::Cookie }, Item { kind: ItemKind::Coffee }]);
    assert_eq!(plan.npcs.len(), 2);
    assert_eq!(plan.npcs[0].role, NpcRole::Sysadmin);
    assert_eq!(plan.npcs[1].role, NpcRole::Tester);
    assert_eq!(
        plan.npcs[1].dialog,
        vec!["Каждый баг — это фича, если документацию правильно написать.".to_string()]
    );
    assert!(!plan.npcs[0].recruited && !plan.npcs[1].recruited);
    assert_eq!(plan.walls, 30);
}

// ------------------------------------------------------------ screens

#[test]
fn game_starts_on_the_splash() {
    assert_eq!(AppState::initial(), AppState::Splash);
}

#[test]
fn screens_follow_in_order() {
    let s = AppState::initial();
    let s = s.next(GameEvent::SplashFinished);
    assert_eq!(s, AppState::MainMenu);
    let s = s.next(GameEvent::StartPressed);
    assert_eq!(s, AppState::InGame);
    let s = s.next(GameEvent::PlayerDefeated);
    assert_eq!(s, AppState::GameOver);
}

#[test]
fn events_for_other_screens_are_ignored() {
    assert_eq!(AppState::Splash.next(GameEvent::StartPressed), AppState::Splash);
    assert_eq!(AppState::Splash.next(GameEvent::PlayerDefeated), AppState::Splash);
    assert_eq!(AppState::MainMenu.next(GameEvent::PlayerDefeated), AppState::MainMenu);
    assert_eq!(AppState::InGame.next(GameEvent::SplashFinished), AppState::InGame);
}

#[test]
fn game_over_is_final() {
    for e in [
        GameEvent::SplashFinished,
        GameEvent::StartPressed,
        GameEvent::PlayerDefeated,
        GameEvent::PausePressed,
    ] {
        assert_eq!(AppState::GameOver.next(e), AppState::GameOver);
    }
}

#[test]
fn a_frame_of_contact_after_a_cookie() {
    let mut p = player(1, vec![]);
    pickup_items(&mut p, true, &vec![ItemKind::Cookie], &vec![true]);
    let over = enemy_attack(&mut p, &vec![true; 5]);
    assert_eq!(p.health, 1);
    assert!(!over);
}

#[test]
fn escape_pauses_and_resumes() {
    let s = AppState::InGame.next(GameEvent::PausePressed);
    assert_eq!(s, AppState::Paused);
    assert_eq!(s.next(GameEvent::PausePressed), AppState::InGame);
}

#[test]
fn a_paused_game_cannot_be_lost() {
    assert_eq!(AppState::Paused.next(GameEvent::PlayerDefeated), AppState::Paused);
    assert_eq!(AppState::Paused.next(GameEvent::StartPressed), AppState::Paused);
    assert_eq!(AppState::Paused.next(GameEvent::SplashFinished), AppState::Paused);
}

#[test]
fn escape_outside_the_game_does_nothing() {
    assert_eq!(AppState::Splash.next(GameEvent::PausePressed), AppState::Splash);
    assert_eq!(AppState::MainMenu.next(GameEvent::PausePressed), AppState::MainMenu);
    assert_eq!(AppState::GameOver.next(GameEvent::PausePressed), AppState::GameOver);
}
