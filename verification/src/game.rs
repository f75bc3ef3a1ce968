//! The game-state machine and the game that owns it: each turn the last
//! keypress decides the state, and the state decides what the turn does.

use vstd::prelude::*;
use vstd::string::*;
use crate::input::{arrow_offset, is_arrow, key_meaning, Key, KeyCode, KeyState, KeyboardInput};
use crate::maps::{glyphs, turn_of, Maps, Turn};
use crate::movement::MoveInfo;
use crate::rendering::{window_drawn, Drawn, RenderingComponent, TcodRenderingComponent};
use crate::util::{Bound, Point};
use crate::window::{Color, WindowComponent, WindowView, Windows, WindowsView};

verus! {

/// The weapon that a key selects, if it selects one.
pub open spec fn weapon_for(key: Key) -> Option<Seq<char>> {
    match key {
        Key::Printable(c) => if c == '/' {
            Some("Heroic Sword"@)
        } else if c == '^' {
            Some("Boomerang"@)
        } else if c == '*' {
            Some("Deadly Bomb"@)
        } else if c == '%' {
            Some("Delicious Lettuce"@)
        } else {
            None
        },
        Key::SpecialKey(_) => None,
    }
}

/// The name of the direction an arrow key points in; empty for other keys.
pub open spec fn direction_name(key: Key) -> Seq<char> {
    match key {
        Key::SpecialKey(KeyCode::Up) => "up"@,
        Key::SpecialKey(KeyCode::Down) => "down"@,
        Key::SpecialKey(KeyCode::Left) => "left"@,
        Key::SpecialKey(KeyCode::Right) => "right"@,
        _ => Seq::empty(),
    }
}

/// The question the input window asks on entering the attack state.
pub open spec fn prompt_text(weapon: Seq<char>) -> Seq<char> {
    "Which direction would you like to attack with "@ + weapon + "? [Press an arrow key]"@
}

/// The report of an attack that found an enemy.
pub open spec fn attack_text(key: Key, weapon: Seq<char>) -> Seq<char> {
    "You attack "@ + direction_name(key) + " with your "@ + weapon + "!"@
}

/// The report of an attack into an empty cell.
pub open spec fn no_enemy_text() -> Seq<char> {
    "No enemy in that direction!"@
}

/// An enemy stands on the cell `(dx, dy)` away from `from`.
pub open spec fn enemy_in_reach(maps: Maps, from: Point, dx: int, dy: int) -> bool {
    maps.enemies.size.holds(from.x + dx, from.y + dy) && maps.enemies.first_at(
        Point::at(from.x + dx, from.y + dy),
    ).is_some()
}

/// The turn lets the actors move: the last keypress is not Shift. With no
/// keypress at all they move as well, each strategy passing the missing
/// key through.
pub open spec fn lets_move(last_keypress: Option<KeyboardInput>) -> bool {
    match last_keypress {
        Some(keypress) => keypress.key != Key::SpecialKey(KeyCode::Shift),
        None => true,
    }
}

/// The state in which keys move the player and everyone takes a turn.
#[derive(Clone, Copy, Debug, PartialEq, Eq, Structural)]
pub struct MovementGameState;

impl MovementGameState {
    pub fn new() -> MovementGameState {
        MovementGameState
    }

    /// Always: the next keypress decides the state anew.
    pub fn should_update_state(&self) -> (r: bool)
        ensures
            r,
    {
        true
    }

    /// Lets every actor take its turn, unless the last keypress is Shift:
    /// then nothing happens.
    pub fn update(&mut self, maps: &mut Maps, windows: &mut Windows, move_info: &mut MoveInfo)
        requires
            old(maps).wf(),
        ensures
            final(maps).wf(),
            lets_move(old(move_info).last_keypress) ==> old(maps).takes_turn(
                turn_of(*old(move_info), *old(windows)),
                *final(maps),
                turn_of(*final(move_info), *final(windows)),
            ),
            !lets_move(old(move_info).last_keypress) ==> {
                &&& *final(maps) == *old(maps)
                &&& *final(move_info) == *old(move_info)
                &&& *final(windows) == *old(windows)
            },
    {
        match move_info.last_keypress {
            Some(ks) => {
                match ks.key {
                    Key::SpecialKey(KeyCode::Shift) => {},
                    _ => {
                        maps.update(move_info, windows);
                    },
                }
            },
            None => {
                maps.update(move_info, windows);
            },
        }
    }
}

/// The state in which the game waits for the direction of an attack.
#[derive(Debug)]
pub struct AttackInputGameState {
    pub should_update_state: bool,
    pub weapon: String,
}

/// The attack state as a mathematical value.
pub struct AttackInputView {
    pub should_update_state: bool,
    pub weapon: Seq<char>,
}

impl View for AttackInputGameState {
    type V = AttackInputView;

    open spec fn view(&self) -> AttackInputView {
        AttackInputView { should_update_state: self.should_update_state, weapon: self.weapon@ }
    }
}

impl AttackInputView {
    /// An attack is resolved this turn: the last keypress is an arrow key.
    pub open spec fn attacks(self, info: MoveInfo) -> bool {
        match info.last_keypress {
            Some(keypress) => is_arrow(keypress.key),
            None => false,
        }
    }

    /// The state after a turn on the blackboard `info`: over, once a
    /// direction was given.
    pub open spec fn updated(self, info: MoveInfo) -> AttackInputView {
        AttackInputView { should_update_state: self.should_update_state || self.attacks(info), ..self }
    }

    /// The line the message window gets this turn; meaningful where
    /// `attacks(info)`.
    pub open spec fn report(self, maps: Maps, info: MoveInfo) -> Seq<char> {
        let key = info.last_keypress.unwrap().key;
        if enemy_in_reach(maps, info.char_location, arrow_offset(key).0, arrow_offset(key).1) {
            attack_text(key, self.weapon)
        } else {
            no_enemy_text()
        }
    }
}

impl AttackInputGameState {
    /// No weapon chosen, no direction given.
    pub fn new() -> (s: AttackInputGameState)
        ensures
            s@ == (AttackInputView { should_update_state: false, weapon: Seq::empty() }),
    {
        AttackInputGameState { should_update_state: false, weapon: String::new() }
    }

    /// Whether a direction was given, so that the state is over.
    pub fn should_update_state(&self) -> (r: bool)
        ensures
            r == self@.should_update_state,
    {
        self.should_update_state
    }

    /// Blanks the input window and asks for the direction of the attack.
    pub fn enter(&self, windows: &mut Windows)
        ensures
            final(windows)@ == old(windows)@.prompt(prompt_text(self@.weapon)),
    {
        windows.input.flush_buffer();
        let mut msg = String::from_str("Which direction would you like to attack with ");
        msg.append(self.weapon.as_str());
        msg.append("? [Press an arrow key]");
        windows.input.buffer_message(msg.as_str());
    }

    /// On an arrow key, resolves the attack on the cell next to the player
    /// in that direction and reports it; on any other key, waits.
    pub fn update(&mut self, maps: &mut Maps, windows: &mut Windows, move_info: &mut MoveInfo)
        requires
            old(maps).enemies.wf(),
        ensures
            *final(maps) == *old(maps),
            *final(move_info) == *old(move_info),
            final(self)@ == old(self)@.updated(*old(move_info)),
            final(windows)@ == (if old(self)@.attacks(*old(move_info)) {
                old(windows)@.report(old(self)@.report(*old(maps), *old(move_info)))
            } else {
                old(windows)@
            }),
    {
        match move_info.last_keypress {
            Some(ks) => {
                let mut msg = String::from_str("You attack ");
                let point = move_info.char_location;
                let (dx, dy) = ks.direction();
                let mut attacks = false;
                match ks.key {
                    Key::SpecialKey(KeyCode::Up) => {
                        msg.append("up");
                        attacks = true;
                    },
                    Key::SpecialKey(KeyCode::Down) => {
                        msg.append("down");
                        attacks = true;
                    },
                    Key::SpecialKey(KeyCode::Left) => {
                        msg.append("left");
                        attacks = true;
                    },
                    Key::SpecialKey(KeyCode::Right) => {
                        msg.append("right");
                        attacks = true;
                    },
                    _ => {},
                }
                assert(msg@ =~= "You attack "@ + direction_name(ks.key));

                if attacks {
                    self.should_update_state = true;
                    let found = match maps.enemies.size.step_within(point, dx, dy) {
                        Some(target) => maps.enemy_at(target).is_some(),
                        None => false,
                    };
                    if found {
                        msg.append(" with your ");
                        msg.append(self.weapon.as_str());
                        msg.append("!");
                        assert(msg@ =~= attack_text(ks.key, self.weapon@));
                        windows.messages.buffer_message(msg.as_str());
                    } else {
                        windows.messages.buffer_message("No enemy in that direction!");
                    }
                }
            },
            _ => {},
        }
    }
}

/// The state of the game: it decides how a keypress is read.
#[derive(Debug)]
pub enum GameState {
    Movement(MovementGameState),
    AttackInput(AttackInputGameState),
}

/// The state of the game as a mathematical value.
pub enum GameStateView {
    Movement,
    AttackInput(AttackInputView),
}

impl View for GameState {
    type V = GameStateView;

    open spec fn view(&self) -> GameStateView {
        match *self {
            GameState::Movement(_) => GameStateView::Movement,
            GameState::AttackInput(state) => GameStateView::AttackInput(state@),
        }
    }
}

/// The state that the last keypress asks for: a weapon key opens the
/// attack state with that weapon; anything else, no keypress included,
/// the movement state.
pub open spec fn next_state(
    current: GameStateView,
    last_keypress: Option<KeyboardInput>,
) -> GameStateView {
    match last_keypress {
        Some(keypress) => match weapon_for(keypress.key) {
            Some(weapon) => GameStateView::AttackInput(
                AttackInputView { should_update_state: false, weapon },
            ),
            None => GameStateView::Movement,
        },
        None => GameStateView::Movement,
    }
}

impl GameStateView {
    /// The state is over: the game decides the state anew before the next
    /// turn.
    pub open spec fn should_update_state(self) -> bool {
        match self {
            GameStateView::Movement => true,
            GameStateView::AttackInput(state) => state.should_update_state,
        }
    }

    /// The windows after the state was entered.
    pub open spec fn entered(self, windows: WindowsView) -> WindowsView {
        match self {
            GameStateView::Movement => windows,
            GameStateView::AttackInput(state) => windows.prompt(prompt_text(state.weapon)),
        }
    }

    /// A turn in this state can lead from `maps` and `turn` to the state
    /// `next`, `after_maps` and `after_turn`.
    pub open spec fn leads(
        self,
        maps: Maps,
        turn: Turn,
        next: GameStateView,
        after_maps: Maps,
        after_turn: Turn,
    ) -> bool {
        match self {
            GameStateView::Movement => {
                &&& next == self
                &&& if lets_move(turn.info.last_keypress) {
                    maps.takes_turn(turn, after_maps, after_turn)
                } else {
                    after_maps == maps && after_turn == turn
                }
            },
            GameStateView::AttackInput(state) => {
                &&& next == GameStateView::AttackInput(state.updated(turn.info))
                &&& after_maps == maps
                &&& after_turn.info == turn.info
                &&& after_turn.windows == (if state.attacks(turn.info) {
                    turn.windows.report(state.report(maps, turn.info))
                } else {
                    turn.windows
                })
            },
        }
    }
}

impl GameState {
    /// The game starts in the movement state.
    pub fn new() -> (s: GameState)
        ensures
            s@ == GameStateView::Movement,
    {
        GameState::Movement(MovementGameState::new())
    }

    pub fn should_update_state(&self) -> (r: bool)
        ensures
            r == self@.should_update_state(),
    {
        match self {
            GameState::Movement(state) => state.should_update_state(),
            GameState::AttackInput(state) => state.should_update_state(),
        }
    }

    /// What happens on entering the state: the attack state asks for a
    /// direction, the movement state does nothing.
    pub fn enter(&self, windows: &mut Windows)
        ensures
            final(windows)@ == self@.entered(old(windows)@),
    {
        match self {
            GameState::Movement(_) => {},
            GameState::AttackInput(state) => state.enter(windows),
        }
    }

    /// What happens on leaving the state: nothing, in either state.
    pub fn exit(&self) {
    }

    /// Takes the turn as the state says.
    pub fn update(&mut self, maps: &mut Maps, windows: &mut Windows, move_info: &mut MoveInfo)
        requires
            old(maps).wf(),
        ensures
            final(maps).wf(),
            old(self)@.leads(
                *old(maps),
                turn_of(*old(move_info), *old(windows)),
                final(self)@,
                *final(maps),
                turn_of(*final(move_info), *final(windows)),
            ),
    {
        match self {
            GameState::Movement(state) => state.update(maps, windows, move_info),
            GameState::AttackInput(state) => state.update(maps, windows, move_info),
        }
    }

    /// Draws a frame: the four windows with their messages, then the
    /// layers of the map, between the start and the end of the frame.
    pub fn render<R: RenderingComponent>(&self, renderer: &mut R, maps: &Maps, windows: &Windows)
        ensures
            final(renderer).frame() == frame_of(*maps, windows@),
            final(renderer).root_size() == old(renderer).root_size(),
    {
        renderer.before_render_new_frame();
        renderer.attach_window(&windows.stats);
        renderer.attach_window(&windows.input);
        renderer.attach_window(&windows.messages);
        renderer.attach_window(&windows.map);
        maps.render(renderer);
        renderer.after_render_new_frame();
        assert(renderer.frame() =~= frame_of(*maps, windows@));
    }
}

/// A whole frame: the screen is wiped; the stats, input, message and map
/// windows are drawn; then the terrain, the friends, the enemies and the
/// player characters, each over what was drawn before; then the frame is
/// shown.
pub open spec fn frame_of(maps: Maps, windows: WindowsView) -> Seq<Drawn> {
    seq![
        Drawn::Clear,
        window_drawn(windows.stats),
        window_drawn(windows.input),
        window_drawn(windows.messages),
        window_drawn(windows.map),
    ] + glyphs(maps.terrain.actors()) + glyphs(maps.friends.actors()) + glyphs(
        maps.enemies.actors(),
    ) + glyphs(maps.pcs.actors()) + seq![Drawn::Flush]
}

/// The game: the state machine, the world and the screen.
#[derive(Debug)]
pub struct Game {
    pub window_bounds: Bound,
    pub exit: bool,
    pub rendering_component: TcodRenderingComponent,
    pub game_state: GameState,
    pub windows: Windows,
    pub maps: Maps,
    pub move_info: MoveInfo,
}

impl Game {
    /// The layers of the world are well-formed.
    pub open spec fn wf(self) -> bool {
        self.maps.wf()
    }

    /// Whether the layers of the world are well-formed.
    pub fn is_well_formed(&self) -> (r: bool)
        ensures
            r == self.wf(),
    {
        self.maps.is_well_formed()
    }

    /// The state and the windows with which the turn proper begins: if the
    /// state is over, the last keypress has decided the next one, and that
    /// state was entered.
    pub open spec fn turn_begins(self) -> (GameStateView, WindowsView) {
        if self.game_state@.should_update_state() {
            let decided = next_state(self.game_state@, self.move_info.last_keypress);
            (decided, decided.entered(self.windows@))
        } else {
            (self.game_state@, self.windows@)
        }
    }

    /// A game on a screen of 100 by 62 cells: the map window at the top
    /// left with the stats window beside it, the input and message windows
    /// below; the world is the map window's rectangle, and empty.
    pub fn new() -> (g: Game)
        ensures
            g.wf(),
            !g.exit,
            g.window_bounds == (Bound { min: Point { x: 0, y: 0 }, max: Point { x: 99, y: 61 } }),
            g.game_state@ == GameStateView::Movement,
            g.move_info.last_keypress.is_none(),
            g.move_info.char_location == (Point { x: 40, y: 25 }),
            g.move_info.bounds == (Bound { min: Point { x: 0, y: 0 }, max: Point { x: 78, y: 49 } }),
            g.windows@.stats == WindowView::fresh(
                Bound { min: Point { x: 79, y: 0 }, max: Point { x: 99, y: 49 } },
                Color { r: 0, g: 0, b: 0 },
                10,
            ),
            g.windows@.input == WindowView::fresh(
                Bound { min: Point { x: 0, y: 50 }, max: Point { x: 99, y: 52 } },
                Color { r: 0, g: 0, b: 0 },
                2,
            ),
            g.windows@.messages == WindowView::fresh(
                Bound { min: Point { x: 0, y: 53 }, max: Point { x: 99, y: 61 } },
                Color { r: 0, g: 0, b: 0 },
                10,
            ),
            g.windows@.map == WindowView::fresh(g.move_info.bounds, Color { r: 0, g: 0, b: 0 }, 10),
            g.maps.terrain.size == g.move_info.bounds && g.maps.enemies.size == g.move_info.bounds
                && g.maps.friends.size == g.move_info.bounds && g.maps.pcs.size
                == g.move_info.bounds,
            forall|p: Point| (#[trigger] g.maps.terrain.cell(p)).len() == 0,
            forall|p: Point| (#[trigger] g.maps.enemies.cell(p)).len() == 0,
            forall|p: Point| (#[trigger] g.maps.friends.cell(p)).len() == 0,
            forall|p: Point| (#[trigger] g.maps.pcs.cell(p)).len() == 0,
            g.rendering_component.root_size() == (100int, 62int),
            g.rendering_component.frame().len() == 0,
    {
        let total_bounds = Bound::new(0, 0, 99, 61);
        let stats_bounds = Bound::new(79, 0, 99, 49);
        let input_bounds = Bound::new(0, 50, 99, 52);
        let message_bounds = Bound::new(0, 53, 99, 61);
        let map_bounds = Bound::new(0, 0, 78, 49);

        let rc = TcodRenderingComponent::new(total_bounds);
        let windows = Windows::new(stats_bounds, map_bounds, input_bounds, message_bounds);

        let move_info = MoveInfo::new(map_bounds);
        let gs = GameState::new();
        let maps = Maps::new(&move_info);

        Game {
            exit: false,
            window_bounds: total_bounds,
            rendering_component: rc,
            windows: windows,
            game_state: gs,
            maps: maps,
            move_info: move_info,
        }
    }

    /// Takes one turn. If the state is over, the last keypress decides the
    /// next state and that state is entered; then the state, new or old,
    /// takes the turn.
    pub fn update(&mut self)
        requires
            old(self).wf(),
        ensures
            final(self).wf(),
            old(self).turn_begins().0.leads(
                old(self).maps,
                Turn { info: old(self).move_info, windows: old(self).turn_begins().1 },
                final(self).game_state@,
                final(self).maps,
                turn_of(final(self).move_info, final(self).windows),
            ),
            final(self).window_bounds == old(self).window_bounds,
            final(self).exit == old(self).exit,
            final(self).rendering_component == old(self).rendering_component,
    {
        if self.game_state.should_update_state() {
            self.game_state.exit();
            self.update_state();
            self.game_state.enter(&mut self.windows);
        }
        self.game_state.update(&mut self.maps, &mut self.windows, &mut self.move_info);
    }

    /// Draws the frame of the current state of the game.
    pub fn render(&mut self)
        ensures
            final(self).rendering_component.frame() == frame_of(old(self).maps, old(self).windows@),
            final(self).rendering_component.root_size()
                == old(self).rendering_component.root_size(),
            final(self).window_bounds == old(self).window_bounds,
            final(self).exit == old(self).exit,
            final(self).game_state == old(self).game_state,
            final(self).windows == old(self).windows,
            final(self).maps == old(self).maps,
            final(self).move_info == old(self).move_info,
    {
        self.game_state.render(&mut self.rendering_component, &self.maps, &self.windows);
    }

    /// Replaces the state by the one the last keypress asks for.
    pub fn update_state(&mut self)
        ensures
            final(self).game_state@ == next_state(
                old(self).game_state@,
                old(self).move_info.last_keypress,
            ),
            final(self).window_bounds == old(self).window_bounds,
            final(self).exit == old(self).exit,
            final(self).rendering_component == old(self).rendering_component,
            final(self).windows == old(self).windows,
            final(self).maps == old(self).maps,
            final(self).move_info == old(self).move_info,
    {
        match self.move_info.last_keypress {
            Some(ks) => {
                match ks.key {
                    Key::Printable('/') => {
                        let mut is = AttackInputGameState::new();
                        is.weapon = String::from_str("Heroic Sword");
                        self.game_state = GameState::AttackInput(is);
                    },
                    Key::Printable('^') => {
                        let mut is = AttackInputGameState::new();
                        is.weapon = String::from_str("Boomerang");
                        self.game_state = GameState::AttackInput(is);
                    },
                    Key::Printable('*') => {
                        let mut is = AttackInputGameState::new();
                        is.weapon = String::from_str("Deadly Bomb");
                        self.game_state = GameState::AttackInput(is);
                    },
                    Key::Printable('%') => {
                        let mut is = AttackInputGameState::new();
                        is.weapon = String::from_str("Delicious Lettuce");
                        self.game_state = GameState::AttackInput(is);
                    },
                    _ => {
                        let ms = MovementGameState::new();
                        self.game_state = GameState::Movement(ms);
                    },
                }
            },
            None => {
                let ms = MovementGameState::new();
                self.game_state = GameState::Movement(ms);
            },
        }
    }

    /// Takes in the raw key event that the backend has waited for: its
    /// meaning becomes the last keypress, and is returned.
    pub fn wait_for_keypress(&mut self, key_state: KeyState) -> (k: KeyboardInput)
        ensures
            k == key_meaning(key_state),
            final(self).move_info == (MoveInfo { last_keypress: Some(k), ..old(self).move_info }),
            final(self).window_bounds == old(self).window_bounds,
            final(self).exit == old(self).exit,
            final(self).rendering_component.frame() == old(self).rendering_component.frame(),
            final(self).rendering_component.root_size()
                == old(self).rendering_component.root_size(),
            final(self).game_state == old(self).game_state,
            final(self).windows == old(self).windows,
            final(self).maps == old(self).maps,
    {
        let key_state = self.rendering_component.wait_for_keypress(key_state);
        self.move_info.last_keypress = Some(key_state);
        key_state
    }

    pub fn get_last_keypress(&self) -> (k: Option<KeyboardInput>)
        ensures
            k == self.move_info.last_keypress,
    {
        self.move_info.last_keypress
    }

    pub fn set_last_keypress(&mut self, ks: KeyboardInput)
        ensures
            *final(self) == (Game {
                move_info: MoveInfo { last_keypress: Some(ks), ..old(self).move_info },
                ..*old(self)
            }),
    {
        self.move_info.last_keypress = Some(ks);
    }

    pub fn get_character_location(&self) -> (p: Point)
        ensures
            p == self.move_info.char_location,
    {
        self.move_info.char_location
    }

    pub fn set_character_location(&mut self, point: Point)
        ensures
            *final(self) == (Game {
                move_info: MoveInfo { char_location: point, ..old(self).move_info },
                ..*old(self)
            }),
    {
        self.move_info.char_location = point;
    }
}

} // verus!
