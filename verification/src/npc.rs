//! A stand-alone wandering figure.

use vstd::prelude::*;
use crate::input::KeyState;
use crate::movement::{is_unit, may_wander, roll_below_three, RandomMovementComponent};
use crate::rendering::{Drawn, RenderingComponent};
use crate::util::{Bound, Point};

verus! {

#[derive(Clone, Copy, Debug, PartialEq, Eq, Structural)]
pub struct NPC {
    pub position: Point,
    pub display_char: char,
}

impl NPC {
    pub fn new(x: i32, y: i32, dc: char) -> (n: NPC)
        ensures
            n == (NPC { position: Point { x, y }, display_char: dc }),
    {
        NPC { position: Point { x: x, y: y }, display_char: dc }
    }

    /// Wanders: one roll per axis, each accepted if `window_bounds` holds
    /// the cell it leads to. The keypress plays no part.
    pub fn update(&mut self, keypress: KeyState, window_bounds: Bound)
        ensures
            final(self).display_char == old(self).display_char,
            may_wander(old(self).position, window_bounds, final(self).position),
    {
        let dx: i32 = roll_below_three() - 1;
        let dy: i32 = roll_below_three() - 1;
        assert(is_unit(dx as int) && is_unit(dy as int));
        self.position = RandomMovementComponent::new(window_bounds).step(self.position, dx, dy);
    }

    /// Draws the figure on its cell.
    pub fn render<R: RenderingComponent>(&self, renderer: &mut R)
        ensures
            final(renderer).frame() == old(renderer).frame().push(
                (Drawn::Glyph { position: self.position, symbol: self.display_char }),
            ),
            final(renderer).root_size() == old(renderer).root_size(),
    {
        renderer.render_object(self.position, self.display_char);
    }
}

} // verus!
