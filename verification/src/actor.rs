//! Actors: whatever stands on a cell of the map and moves by a strategy.

use vstd::prelude::*;
use crate::movement::{
    cannot_move_text, AgroMovementComponent, MoveInfo, MovementComponent,
    RandomMovementComponent, UserMovementComponent,
};
use crate::rendering::{Drawn, RenderingComponent};
use crate::util::Point;
use crate::window::Windows;

verus! {

#[derive(Clone, Copy, Debug, PartialEq, Eq, Structural)]
pub struct Actor {
    pub position: Point,
    pub display_char: char,
    pub is_pc: bool,
    pub movement_component: MovementComponent,
}

impl Actor {
    /// This actor, standing at `to`.
    pub open spec fn moved_to(self, to: Point) -> Actor {
        Actor { position: to, ..self }
    }

    /// `next` is this actor after one turn: the same actor, wherever its
    /// strategy may have taken it.
    pub open spec fn may_become(self, info: MoveInfo, next: Actor) -> bool {
        next == self.moved_to(next.position) && self.movement_component.may_move(
            self.position,
            info,
            next.position,
        )
    }

    /// This turn the actor's move is refused and reported.
    pub open spec fn complains(self, info: MoveInfo) -> bool {
        self.movement_component.complains(self.position, info)
    }

    /// How the actor is drawn.
    pub open spec fn glyph(self) -> Drawn {
        Drawn::Glyph { position: self.position, symbol: self.display_char }
    }

    pub fn new(
        x: i32,
        y: i32,
        dc: char,
        movement_component: MovementComponent,
        is_pc: bool,
    ) -> (a: Actor)
        ensures
            a == (Actor { position: Point { x, y }, display_char: dc, is_pc, movement_component }),
    {
        Actor {
            position: Point { x: x, y: y },
            display_char: dc,
            movement_component: movement_component,
            is_pc: is_pc,
        }
    }

    /// A dog, `d`: wanders within the world's bounds.
    pub fn dog(x: i32, y: i32, move_info: &MoveInfo) -> (a: Actor)
        ensures
            a == (Actor {
                position: Point { x, y },
                display_char: 'd',
                is_pc: false,
                movement_component: MovementComponent::Random(
                    RandomMovementComponent { window_bounds: move_info.bounds },
                ),
            }),
    {
        let mc = MovementComponent::Random(RandomMovementComponent::new(move_info.bounds));
        Actor::new(x, y, 'd', mc, false)
    }

    /// A cat, `c`: wanders within the world's bounds.
    pub fn cat(x: i32, y: i32, move_info: &MoveInfo) -> (a: Actor)
        ensures
            a == (Actor {
                position: Point { x, y },
                display_char: 'c',
                is_pc: false,
                movement_component: MovementComponent::Random(
                    RandomMovementComponent { window_bounds: move_info.bounds },
                ),
            }),
    {
        let mc = MovementComponent::Random(RandomMovementComponent::new(move_info.bounds));
        Actor::new(x, y, 'c', mc, false)
    }

    /// A kobold, `k`: chases the player within the world's bounds.
    pub fn kobold(x: i32, y: i32, move_info: &MoveInfo) -> (a: Actor)
        ensures
            a == (Actor {
                position: Point { x, y },
                display_char: 'k',
                is_pc: false,
                movement_component: MovementComponent::Agro(
                    AgroMovementComponent { window_bounds: move_info.bounds },
                ),
            }),
    {
        let mc = MovementComponent::Agro(AgroMovementComponent::new(move_info.bounds));
        Actor::new(x, y, 'k', mc, false)
    }

    /// The heroine, `@`: the player, standing where the blackboard says.
    pub fn heroine(move_info: &MoveInfo) -> (a: Actor)
        ensures
            a == (Actor {
                position: move_info.char_location,
                display_char: '@',
                is_pc: true,
                movement_component: MovementComponent::User(
                    UserMovementComponent { window_bounds: move_info.bounds },
                ),
            }),
    {
        let point = move_info.char_location;
        let mc = MovementComponent::User(UserMovementComponent::new(move_info.bounds));
        Actor::new(point.x, point.y, '@', mc, true)
    }

    /// Takes the actor's turn: its strategy gives the new position.
    pub fn update(&mut self, move_info: &MoveInfo, windows: &mut Windows)
        ensures
            old(self).may_become(*move_info, *final(self)),
            final(windows)@ == (if old(self).complains(*move_info) {
                old(windows)@.report(cannot_move_text())
            } else {
                old(windows)@
            }),
    {
        self.position = self.movement_component.update(self.position, move_info, windows);
    }

    /// Draws the actor on its cell.
    pub fn render<R: RenderingComponent>(&self, rendering_component: &mut R)
        ensures
            final(rendering_component).frame() == old(rendering_component).frame().push(
                self.glyph(),
            ),
            final(rendering_component).root_size() == old(rendering_component).root_size(),
    {
        rendering_component.render_object(self.position, self.display_char);
    }
}

} // verus!
