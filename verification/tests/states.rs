use dwemthys::actor::Actor;
use dwemthys::game::{AttackInputGameState, Game, GameState, MovementGameState};
use dwemthys::input::{Key, KeyCode, KeyState, KeyboardInput, RawKey, RawKeyCode};
use dwemthys::rendering::{DrawCommand, RenderingComponent, TcodRenderingComponent};
use dwemthys::util::{Bound, Point};
use dwemthys::window::{Color, WindowComponent};

fn raw(code: RawKeyCode) -> KeyState {
    KeyState { key: RawKey::Special(code), shift: false }
}

fn slash() -> KeyState {
    KeyState { key: RawKey::Printable('/'), shift: false }
}

fn game_with_heroine() -> Game {
    let mut game = Game::new();
    let heroine = Actor::heroine(&game.move_info);
    game.maps.pcs.push_actor(heroine.position, heroine);
    game
}

fn weapon_of(game: &Game) -> Option<(String, bool)> {
    match &game.game_state {
        GameState::Movement(_) => None,
        GameState::AttackInput(state) => Some((state.weapon.clone(), state.should_update_state)),
    }
}

#[test]
fn a_new_game_is_in_the_movement_state() {
    let game = Game::new();
    assert!(!game.exit);
    assert_eq!(game.window_bounds, Bound::new(0, 0, 99, 61));
    assert_eq!(weapon_of(&game), None);
    assert!(game.game_state.should_update_state());
    assert_eq!(game.move_info.last_keypress, None);
    assert_eq!(game.move_info.char_location, Point { x: 40, y: 25 });
    assert_eq!(game.move_info.bounds, Bound::new(0, 0, 78, 49));
    assert_eq!(game.windows.get_map_bounds(), Bound::new(0, 0, 78, 49));
    assert_eq!(game.windows.stats.get_bounds(), Bound::new(79, 0, 99, 49));
    assert_eq!(game.windows.input.get_bounds(), Bound::new(0, 50, 99, 52));
    assert_eq!(game.windows.messages.get_bounds(), Bound::new(0, 53, 99, 61));
    assert_eq!(game.maps.pcs.size, Bound::new(0, 0, 78, 49));
    assert_eq!(game.maps.enemies.content.len(), 79);
    assert_eq!(game.rendering_component.width, 100);
    assert_eq!(game.rendering_component.height, 62);
    assert!(game.rendering_component.frame.is_empty());
}

#[test]
fn the_keypress_is_stored_and_returned() {
    let mut game = Game::new();
    let k = game.wait_for_keypress(raw(RawKeyCode::Left));
    assert_eq!(k, KeyboardInput::new(Key::SpecialKey(KeyCode::Left)));
    assert_eq!(game.get_last_keypress(), Some(k));
    let k = game.wait_for_keypress(KeyState { key: RawKey::Special(RawKeyCode::Number6), shift: true });
    assert_eq!(k, KeyboardInput::new(Key::Printable('^')));
    assert_eq!(game.move_info.last_keypress, Some(k));
}

#[test]
fn the_blackboard_can_be_read_and_set() {
    let mut game = Game::new();
    assert_eq!(game.get_last_keypress(), None);
    assert_eq!(game.get_character_location(), Point { x: 40, y: 25 });
    game.set_last_keypress(KeyboardInput::new(Key::SpecialKey(KeyCode::Escape)));
    game.set_character_location(Point::new(1, 2));
    assert_eq!(
        game.get_last_keypress(),
        Some(KeyboardInput::new(Key::SpecialKey(KeyCode::Escape)))
    );
    assert_eq!(game.get_character_location(), Point { x: 1, y: 2 });
    assert_eq!(game.move_info.bounds, Bound::new(0, 0, 78, 49));
}

#[test]
fn each_weapon_key_opens_the_attack_state() {
    for (c, weapon) in [
        ('/', "Heroic Sword"),
        ('^', "Boomerang"),
        ('*', "Deadly Bomb"),
        ('%', "Delicious Lettuce"),
    ] {
        let mut game = Game::new();
        game.set_last_keypress(KeyboardInput::new(Key::Printable(c)));
        game.update_state();
        assert_eq!(weapon_of(&game), Some((weapon.to_string(), false)));
        assert!(!game.game_state.should_update_state());
    }
}

#[test]
fn any_other_key_opens_the_movement_state() {
    for key in [
        Key::Printable('a'),
        Key::SpecialKey(KeyCode::Up),
        Key::SpecialKey(KeyCode::Shift),
        Key::SpecialKey(KeyCode::Escape),
        Key::SpecialKey(KeyCode::NoKey),
    ] {
        let mut game = Game::new();
        game.game_state = GameState::AttackInput(AttackInputGameState::new());
        game.set_last_keypress(KeyboardInput::new(key));
        game.update_state();
        assert_eq!(weapon_of(&game), None);
    }
}

#[test]
fn without_a_keypress_the_movement_state_opens() {
    let mut game = Game::new();
    game.game_state = GameState::AttackInput(AttackInputGameState::new());
    game.update_state();
    assert_eq!(weapon_of(&game), None);
    let mut fresh = Game::new();
    fresh.update_state();
    assert_eq!(weapon_of(&fresh), None);
}

#[test]
fn slash_then_up_attacks_with_the_sword_and_returns_to_movement() {
    let mut game = game_with_heroine();
    let kobold = Actor::kobold(40, 24, &game.move_info);
    game.maps.enemies.push_actor(Point::new(40, 24), kobold);

    game.wait_for_keypress(slash());
    game.update();
    assert_eq!(weapon_of(&game), Some(("Heroic Sword".to_string(), false)));
    assert_eq!(
        game.windows.input.get_messages(),
        vec![
            "Which direction would you like to attack with Heroic Sword? [Press an arrow key]"
                .to_string(),
            String::new(),
        ]
    );
    assert_eq!(game.windows.messages.get_messages(), Vec::<String>::new());
    assert_eq!(game.move_info.char_location, Point { x: 40, y: 25 });
    assert_eq!(game.maps.enemies.content[40][24], vec![kobold]);

    game.wait_for_keypress(raw(RawKeyCode::Up));
    game.update();
    assert_eq!(weapon_of(&game), Some(("Heroic Sword".to_string(), true)));
    assert!(game.game_state.should_update_state());
    assert_eq!(
        game.windows.messages.get_messages(),
        vec!["You attack up with your Heroic Sword!".to_string()]
    );
    assert_eq!(game.move_info.char_location, Point { x: 40, y: 25 });
    assert_eq!(game.maps.pcs.content[40][25].len(), 1);

    game.wait_for_keypress(raw(RawKeyCode::Up));
    game.update();
    assert_eq!(weapon_of(&game), None);
    assert_eq!(
        game.windows.messages.get_messages(),
        vec!["You attack up with your Heroic Sword!".to_string()]
    );
}

#[test]
fn an_attack_names_its_direction_and_weapon() {
    for (code, weapon_key, at, text) in [
        (RawKeyCode::Down, RawKeyCode::Number6, Point::new(40, 26), "You attack down with your Boomerang!"),
        (RawKeyCode::Left, RawKeyCode::Number8, Point::new(39, 25), "You attack left with your Deadly Bomb!"),
        (RawKeyCode::Right, RawKeyCode::Number5, Point::new(41, 25), "You attack right with your Delicious Lettuce!"),
    ] {
        let mut game = game_with_heroine();
        let kobold = Actor::kobold(at.x, at.y, &game.move_info);
        game.maps.enemies.push_actor(at, kobold);
        game.wait_for_keypress(KeyState { key: RawKey::Special(weapon_key), shift: true });
        game.update();
        game.wait_for_keypress(raw(code));
        game.update();
        assert_eq!(game.windows.messages.get_messages(), vec![text.to_string()]);
        assert_eq!(game.maps.enemies.content[at.x as usize][at.y as usize], vec![kobold]);
    }
}

#[test]
fn an_attack_into_an_empty_cell_finds_no_enemy() {
    let mut game = game_with_heroine();
    game.maps.enemies.push_actor(Point::new(40, 24), Actor::kobold(40, 24, &game.move_info));
    game.maps.friends.push_actor(Point::new(40, 26), Actor::dog(40, 26, &game.move_info));
    game.wait_for_keypress(slash());
    game.update();
    game.wait_for_keypress(raw(RawKeyCode::Down));
    game.update();
    assert_eq!(weapon_of(&game), Some(("Heroic Sword".to_string(), true)));
    assert_eq!(
        game.windows.messages.get_messages(),
        vec!["No enemy in that direction!".to_string()]
    );
}

#[test]
fn an_attack_off_the_map_finds_no_enemy() {
    let mut game = Game::new();
    game.set_character_location(Point::new(0, 0));
    game.wait_for_keypress(slash());
    game.update();
    game.wait_for_keypress(raw(RawKeyCode::Up));
    game.update();
    assert_eq!(
        game.windows.messages.get_messages(),
        vec!["No enemy in that direction!".to_string()]
    );
    game.set_character_location(Point::new(i32::MIN, i32::MIN));
    game.wait_for_keypress(slash());
    game.update();
    game.wait_for_keypress(raw(RawKeyCode::Left));
    game.update();
    assert_eq!(game.windows.messages.get_messages().len(), 2);
    assert_eq!(game.windows.messages.get_messages()[0], "No enemy in that direction!");
}

#[test]
fn the_attack_state_waits_for_an_arrow() {
    let mut game = game_with_heroine();
    game.wait_for_keypress(slash());
    game.update();
    for key in [raw(RawKeyCode::Escape), raw(RawKeyCode::Shift), raw(RawKeyCode::Other)] {
        game.wait_for_keypress(key);
        game.update();
        assert_eq!(weapon_of(&game), Some(("Heroic Sword".to_string(), false)));
        assert_eq!(game.windows.messages.get_messages(), Vec::<String>::new());
        assert_eq!(game.windows.input.get_messages().len(), 2);
        assert_eq!(game.move_info.char_location, Point { x: 40, y: 25 });
    }
}

#[test]
fn a_weapon_key_in_the_attack_state_does_not_change_the_weapon() {
    let mut game = game_with_heroine();
    game.wait_for_keypress(slash());
    game.update();
    game.wait_for_keypress(KeyState { key: RawKey::Special(RawKeyCode::Number6), shift: true });
    game.update();
    assert_eq!(weapon_of(&game), Some(("Heroic Sword".to_string(), false)));
}

#[test]
fn arrows_move_the_player_in_the_movement_state() {
    let mut game = game_with_heroine();
    game.wait_for_keypress(raw(RawKeyCode::Right));
    game.update();
    assert_eq!(weapon_of(&game), None);
    assert_eq!(game.move_info.char_location, Point { x: 41, y: 25 });
    assert_eq!(game.maps.pcs.content[41][25].len(), 1);
    assert!(game.maps.pcs.content[40][25].is_empty());
}

#[test]
fn shift_skips_the_turn() {
    let mut game = game_with_heroine();
    let kobold = Actor::kobold(20, 20, &game.move_info);
    game.maps.enemies.push_actor(Point::new(20, 20), kobold);
    game.wait_for_keypress(raw(RawKeyCode::Shift));
    game.update();
    assert_eq!(weapon_of(&game), None);
    assert_eq!(game.maps.enemies.content[20][20], vec![kobold]);
    assert_eq!(game.move_info.char_location, Point { x: 40, y: 25 });
}

#[test]
fn without_a_keypress_the_turn_is_still_taken() {
    let mut game = game_with_heroine();
    let kobold = Actor::kobold(20, 20, &game.move_info);
    game.maps.enemies.push_actor(Point::new(20, 20), kobold);
    game.update();
    assert_eq!(weapon_of(&game), None);
    assert_eq!(game.move_info.last_keypress, None);
    assert_eq!(game.move_info.char_location, Point { x: 40, y: 25 });
    assert_eq!(game.maps.pcs.content[40][25].len(), 1);
    assert_eq!(game.windows.messages.get_messages(), Vec::<String>::new());
    assert!(game.maps.enemies.content[20][20].is_empty());
    assert_eq!(
        game.maps.enemies.content[21][21],
        vec![Actor { position: Point { x: 21, y: 21 }, ..kobold }]
    );
}

#[test]
fn the_movement_state_skips_the_turn_for_shift_only() {
    let mut game = game_with_heroine();
    let kobold = Actor::kobold(20, 20, &game.move_info);
    game.maps.enemies.push_actor(Point::new(20, 20), kobold);
    let mut state = MovementGameState::new();

    game.move_info.last_keypress = Some(KeyboardInput::new(Key::SpecialKey(KeyCode::Shift)));
    state.update(&mut game.maps, &mut game.windows, &mut game.move_info);
    assert_eq!(game.maps.enemies.content[20][20], vec![kobold]);

    game.move_info.last_keypress = None;
    state.update(&mut game.maps, &mut game.windows, &mut game.move_info);
    assert_eq!(game.maps.enemies.content[21][21].len(), 1);

    game.move_info.last_keypress = Some(KeyboardInput::new(Key::SpecialKey(KeyCode::NoKey)));
    state.update(&mut game.maps, &mut game.windows, &mut game.move_info);
    assert_eq!(game.maps.enemies.content[22][22].len(), 1);
    assert_eq!(game.move_info.char_location, Point { x: 40, y: 25 });
    assert_eq!(game.windows.messages.get_messages(), Vec::<String>::new());
}

#[test]
fn only_an_arrow_key_resolves_an_attack() {
    let mut game = game_with_heroine();
    game.maps.enemies.push_actor(Point::new(40, 25), Actor::kobold(40, 25, &game.move_info));
    let mut state = AttackInputGameState::new();
    state.weapon = "Boomerang".to_string();
    state.should_update_state = true;
    for key in [Key::Printable('x'), Key::SpecialKey(KeyCode::Shift), Key::SpecialKey(KeyCode::NoKey)] {
        game.move_info.last_keypress = Some(KeyboardInput::new(key));
        state.update(&mut game.maps, &mut game.windows, &mut game.move_info);
        assert!(state.should_update_state);
        assert_eq!(game.windows.messages.get_messages(), Vec::<String>::new());
    }
    game.move_info.last_keypress = None;
    state.update(&mut game.maps, &mut game.windows, &mut game.move_info);
    assert!(state.should_update_state);
    assert_eq!(game.windows.messages.get_messages(), Vec::<String>::new());

    let mut waiting = AttackInputGameState::new();
    waiting.weapon = "Boomerang".to_string();
    game.move_info.last_keypress = None;
    waiting.update(&mut game.maps, &mut game.windows, &mut game.move_info);
    assert!(!waiting.should_update_state);
    game.move_info.last_keypress = Some(KeyboardInput::new(Key::SpecialKey(KeyCode::Left)));
    waiting.update(&mut game.maps, &mut game.windows, &mut game.move_info);
    assert!(waiting.should_update_state);
    assert_eq!(
        game.windows.messages.get_messages(),
        vec!["No enemy in that direction!".to_string()]
    );
}

#[test]
fn an_attack_reads_the_enemies_layer_alone() {
    let mut game = game_with_heroine();
    game.maps.enemies.push_actor(Point::new(41, 25), Actor::kobold(41, 25, &game.move_info));
    game.maps.friends.content.clear();
    game.maps.terrain.content[0][0].push(Actor::dog(5, 5, &game.move_info));
    assert!(!game.maps.is_well_formed());
    assert!(game.maps.enemies.is_well_formed());
    assert!(game.maps.enemy_at(Point::new(41, 25)).is_some());
    let mut state = AttackInputGameState::new();
    state.weapon = "Deadly Bomb".to_string();
    game.move_info.last_keypress = Some(KeyboardInput::new(Key::SpecialKey(KeyCode::Right)));
    state.update(&mut game.maps, &mut game.windows, &mut game.move_info);
    assert_eq!(
        game.windows.messages.get_messages(),
        vec!["You attack right with your Deadly Bomb!".to_string()]
    );
}

#[test]
fn any_other_key_lets_the_others_take_their_turn() {
    let mut game = game_with_heroine();
    game.maps.enemies.push_actor(Point::new(20, 20), Actor::kobold(20, 20, &game.move_info));
    game.wait_for_keypress(raw(RawKeyCode::Escape));
    game.update();
    assert_eq!(game.maps.enemies.content[21][21].len(), 1);
    assert_eq!(game.move_info.char_location, Point { x: 40, y: 25 });
}

#[test]
fn the_states_on_their_own() {
    let movement = MovementGameState::new();
    assert!(movement.should_update_state());
    let attack = AttackInputGameState::new();
    assert!(!attack.should_update_state());
    assert_eq!(attack.weapon, "");
    let state = GameState::new();
    assert!(state.should_update_state());
    state.exit();
    let mut game = Game::new();
    state.enter(&mut game.windows);
    assert_eq!(game.windows.input.get_messages(), Vec::<String>::new());
}

#[test]
fn a_frame_holds_the_windows_then_the_layers() {
    let mut game = game_with_heroine();
    game.maps.enemies.push_actor(Point::new(20, 20), Actor::kobold(20, 20, &game.move_info));
    game.maps.friends.push_actor(Point::new(10, 10), Actor::dog(10, 10, &game.move_info));
    game.windows.messages.buffer_message("hello");
    game.windows.input.buffer_message("first");
    game.windows.input.buffer_message("second");
    game.render();
    let black = Color::new(0, 0, 0);
    let expected = vec![
        DrawCommand::Clear,
        DrawCommand::Window {
            background: black,
            lines: vec![],
            width: 100,
            height: 50,
            target: Point { x: 79, y: 0 },
        },
        DrawCommand::Window {
            background: black,
            lines: vec!["second".to_string(), "first".to_string()],
            width: 100,
            height: 53,
            target: Point { x: 0, y: 50 },
        },
        DrawCommand::Window {
            background: black,
            lines: vec!["hello".to_string()],
            width: 100,
            height: 62,
            target: Point { x: 0, y: 53 },
        },
        DrawCommand::Window {
            background: black,
            lines: vec![],
            width: 79,
            height: 50,
            target: Point { x: 0, y: 0 },
        },
        DrawCommand::Glyph { position: Point { x: 10, y: 10 }, symbol: 'd' },
        DrawCommand::Glyph { position: Point { x: 20, y: 20 }, symbol: 'k' },
        DrawCommand::Glyph { position: Point { x: 40, y: 25 }, symbol: '@' },
        DrawCommand::Flush,
    ];
    assert_eq!(game.rendering_component.frame, expected);
    game.render();
    assert_eq!(game.rendering_component.frame, expected);
}

#[test]
fn the_renderer_records_what_it_is_asked() {
    let mut renderer = TcodRenderingComponent::new(Bound::new(0, 0, 99, 61));
    assert_eq!(renderer.width, 100);
    assert_eq!(renderer.height, 62);
    renderer.render_object(Point::new(1, 1), 'x');
    renderer.before_render_new_frame();
    renderer.render_object(Point::new(2, 3), 'y');
    renderer.after_render_new_frame();
    assert_eq!(
        renderer.frame,
        vec![
            DrawCommand::Clear,
            DrawCommand::Glyph { position: Point { x: 2, y: 3 }, symbol: 'y' },
            DrawCommand::Flush,
        ]
    );
    let k = renderer.wait_for_keypress(raw(RawKeyCode::Escape));
    assert_eq!(k, KeyboardInput::new(Key::SpecialKey(KeyCode::Escape)));
    assert_eq!(renderer.frame.len(), 3);
}

#[test]
fn the_root_console_of_a_far_bound_does_not_overflow() {
    let renderer = TcodRenderingComponent::new(Bound::new(0, 0, i32::MAX, i32::MAX));
    assert_eq!(renderer.width, 2147483648);
    assert_eq!(renderer.height, 2147483648);
}

#[test]
fn a_game_stays_well_formed_over_many_turns() {
    let mut game = game_with_heroine();
    game.maps.enemies.push_actor(Point::new(20, 20), Actor::kobold(20, 20, &game.move_info));
    game.maps.friends.push_actor(Point::new(10, 10), Actor::dog(10, 10, &game.move_info));
    assert!(game.is_well_formed());
    let keys = [
        raw(RawKeyCode::Up),
        raw(RawKeyCode::Left),
        slash(),
        raw(RawKeyCode::Down),
        raw(RawKeyCode::Shift),
        raw(RawKeyCode::Right),
    ];
    for turn in 0..300 {
        game.wait_for_keypress(keys[turn % keys.len()]);
        game.update();
        assert!(game.is_well_formed());
    }
}
