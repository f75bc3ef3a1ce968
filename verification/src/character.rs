//! A stand-alone player figure that reads raw arrow keys itself.

use vstd::prelude::*;
use crate::input::{KeyState, RawKey, RawKeyCode};
use crate::movement::step_or_stay;
use crate::rendering::{Drawn, RenderingComponent};
use crate::util::{Bound, Point};

verus! {

#[derive(Clone, Copy, Debug, PartialEq, Eq, Structural)]
pub struct Character {
    pub position: Point,
    pub display_char: char,
}

/// The unit offset of a raw arrow key; `(0, 0)` for every other key.
pub open spec fn raw_arrow_offset(key: RawKey) -> (int, int) {
    match key {
        RawKey::Special(RawKeyCode::Up) => (0, -1),
        RawKey::Special(RawKeyCode::Down) => (0, 1),
        RawKey::Special(RawKeyCode::Left) => (-1, 0),
        RawKey::Special(RawKeyCode::Right) => (1, 0),
        _ => (0, 0),
    }
}

impl Character {
    pub fn new(x: i32, y: i32, dc: char) -> (c: Character)
        ensures
            c == (Character { position: Point { x, y }, display_char: dc }),
    {
        Character { position: Point { x: x, y: y }, display_char: dc }
    }

    /// Moves one cell as the arrow key says, if `window_bounds` holds that
    /// cell; stays otherwise.
    pub fn update(&mut self, keypress: KeyState, window_bounds: Bound)
        ensures
            final(self).display_char == old(self).display_char,
            final(self).position == step_or_stay(
                old(self).position,
                raw_arrow_offset(keypress.key).0,
                raw_arrow_offset(keypress.key).1,
                window_bounds,
            ),
    {
        let (dx, dy): (i32, i32) = match keypress.key {
            RawKey::Special(RawKeyCode::Up) => (0, -1),
            RawKey::Special(RawKeyCode::Down) => (0, 1),
            RawKey::Special(RawKeyCode::Left) => (-1, 0),
            RawKey::Special(RawKeyCode::Right) => (1, 0),
            _ => (0, 0),
        };
        match window_bounds.step_within(self.position, dx, dy) {
            Some(target) => self.position = target,
            None => {},
        }
    }

    /// Draws the figure on its cell.
    pub fn render<R: RenderingComponent>(&self, renderer: &mut R)
        ensures
            final(renderer).frame() == old(renderer).frame().push(
                (Drawn::Glyph { position: self.position, symbol: self.display_char }),
            ),
            final(renderer).root_size() == old(renderer).root_size(),
    {
        renderer.render_object(self.position, self.display_char);
    }
}

} // verus!
