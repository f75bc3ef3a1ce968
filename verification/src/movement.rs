//! The shared per-turn blackboard and the three movement strategies: driven
//! by the player's keys, wandering at random, and chasing the player.

use vstd::prelude::*;
use rand::Rng;
use crate::input::{arrow_offset, KeyboardInput};
use crate::util::{Bound, Contains, Point, PointRelation, XPointRelation, YPointRelation};
use crate::window::{WindowComponent, Windows};

verus! {

/// What every strategy and game state reads during a turn: the last key
/// pressed, where the player stands, and the bounds of the world.
#[derive(Clone, Copy, Debug, PartialEq, Eq, Structural)]
pub struct MoveInfo {
    pub last_keypress: Option<KeyboardInput>,
    pub char_location: Point,
    pub bounds: Bound,
}

impl MoveInfo {
    /// No key pressed yet, the player at (40, 25).
    pub fn new(bound: Bound) -> (m: MoveInfo)
        ensures
            m.last_keypress.is_none(),
            m.char_location == (Point { x: 40, y: 25 }),
            m.bounds == bound,
    {
        MoveInfo { last_keypress: None, char_location: Point::new(40, 25), bounds: bound }
    }
}

/// The cell reached from `point` by `(dx, dy)` if `bounds` holds it, else
/// `point` itself.
pub open spec fn step_or_stay(point: Point, dx: int, dy: int, bounds: Bound) -> Point {
    if bounds.holds(point.x + dx, point.y + dy) {
        Point::at(point.x + dx, point.y + dy)
    } else {
        point
    }
}

/// The offset that the last keypress asks for: a unit step for an arrow
/// key, none for any other key or for no key.
pub open spec fn key_offset(last_keypress: Option<KeyboardInput>) -> (int, int) {
    match last_keypress {
        Some(keypress) => arrow_offset(keypress.key),
        None => (0, 0),
    }
}

/// The player's move is refused: the cell asked for lies outside `bounds`.
pub open spec fn user_blocked(
    point: Point,
    last_keypress: Option<KeyboardInput>,
    bounds: Bound,
) -> bool {
    !bounds.holds(point.x + key_offset(last_keypress).0, point.y + key_offset(last_keypress).1)
}

/// Where the player stands after the last keypress.
pub open spec fn user_step(
    point: Point,
    last_keypress: Option<KeyboardInput>,
    bounds: Bound,
) -> Point {
    step_or_stay(point, key_offset(last_keypress).0, key_offset(last_keypress).1, bounds)
}

/// Where a wanderer ends up on the rolls `dx` and `dy`: the x step is
/// taken or refused first, then the y step from wherever that led.
pub open spec fn random_step(point: Point, dx: int, dy: int, bounds: Bound) -> Point {
    step_or_stay(step_or_stay(point, dx, 0, bounds), 0, dy, bounds)
}

pub open spec fn is_unit(d: int) -> bool {
    -1 <= d <= 1
}

/// `to` is where some pair of rolls from {-1, 0, 1} takes a wanderer.
pub open spec fn may_wander(point: Point, bounds: Bound, to: Point) -> bool {
    exists|dx: int, dy: int|
        is_unit(dx) && is_unit(dy) && to == #[trigger] random_step(point, dx, dy, bounds)
}

/// One step along an axis from `from` toward `to`.
pub open spec fn toward(from: int, to: int) -> int {
    if from > to {
        -1
    } else if from < to {
        1
    } else {
        0
    }
}

/// Where a chaser goes: one step toward the player on each axis, unless
/// that cell is the player's own or lies outside `bounds`.
pub open spec fn agro_step(point: Point, player: Point, bounds: Bound) -> Point {
    let dx = toward(point.x as int, player.x as int);
    let dy = toward(point.y as int, player.y as int);
    if point.x + dx == player.x && point.y + dy == player.y {
        point
    } else {
        step_or_stay(point, dx, dy, bounds)
    }
}

/// The line the message window gets when the player's move is refused.
pub open spec fn cannot_move_text() -> Seq<char> {
    "You can't move that way!"@
}

/// Draws one of 0, 1, 2 from the thread's random generator
/// (`rand::Rng::gen_range` on `rand::thread_rng()`, with the range `0..3`).
/// The contract states only that the draw lies in that range.
#[verifier::external_body]
pub(crate) fn roll_below_three() -> (r: i32)
    ensures
        0 <= r < 3,
{
    rand::thread_rng().gen_range(0..3)
}

/// Moves as the player's arrow keys say, and tells the player when it cannot.
#[derive(Clone, Copy, Debug, PartialEq, Eq, Structural)]
pub struct UserMovementComponent {
    pub window_bounds: Bound,
}

impl UserMovementComponent {
    pub fn new(window_bounds: Bound) -> (c: UserMovementComponent)
        ensures
            c.window_bounds == window_bounds,
    {
        UserMovementComponent { window_bounds: window_bounds }
    }

    /// The position after the last keypress. A refused move leaves the
    /// position as it was and puts one line into the message window.
    pub fn update(&self, point: Point, move_info: &MoveInfo, windows: &mut Windows) -> (r: Point)
        ensures
            r == user_step(point, move_info.last_keypress, self.window_bounds),
            final(windows)@ == (if user_blocked(
                point,
                move_info.last_keypress,
                self.window_bounds,
            ) {
                old(windows)@.report(cannot_move_text())
            } else {
                old(windows)@
            }),
    {
        let (dx, dy): (i32, i32) = match move_info.last_keypress {
            Some(keypress) => keypress.direction(),
            None => (0, 0),
        };
        match self.window_bounds.step_within(point, dx, dy) {
            Some(target) => target,
            None => {
                windows.messages.buffer_message("You can't move that way!");
                point
            },
        }
    }
}

/// Wanders: each turn one roll per axis, each accepted on its own.
#[derive(Clone, Copy, Debug, PartialEq, Eq, Structural)]
pub struct RandomMovementComponent {
    pub window_bounds: Bound,
}

impl RandomMovementComponent {
    pub fn new(window_bounds: Bound) -> (c: RandomMovementComponent)
        ensures
            c.window_bounds == window_bounds,
    {
        RandomMovementComponent { window_bounds: window_bounds }
    }

    /// The position that the rolls `dx` and `dy` lead to.
    pub fn step(&self, point: Point, dx: i32, dy: i32) -> (r: Point)
        ensures
            r == random_step(point, dx as int, dy as int, self.window_bounds),
    {
        let after_x = match self.window_bounds.step_within(point, dx, 0) {
            Some(target) => target,
            None => point,
        };
        match self.window_bounds.step_within(after_x, 0, dy) {
            Some(target) => target,
            None => after_x,
        }
    }

    /// Rolls both axes and steps. Whatever the rolls, the result is where
    /// some pair of offsets from {-1, 0, 1} leads; the windows are untouched.
    pub fn update(&self, point: Point, move_info: &MoveInfo, windows: &mut Windows) -> (r: Point)
        ensures
            may_wander(point, self.window_bounds, r),
            *final(windows) == *old(windows),
    {
        let dx: i32 = roll_below_three() - 1;
        let dy: i32 = roll_below_three() - 1;
        let r = self.step(point, dx, dy);
        assert(is_unit(dx as int) && is_unit(dy as int));
        r
    }
}

/// Chases the player, one greedy step a turn, and never steps onto them.
#[derive(Clone, Copy, Debug, PartialEq, Eq, Structural)]
pub struct AgroMovementComponent {
    pub window_bounds: Bound,
}

impl AgroMovementComponent {
    pub fn new(window_bounds: Bound) -> (c: AgroMovementComponent)
        ensures
            c.window_bounds == window_bounds,
    {
        AgroMovementComponent { window_bounds: window_bounds }
    }

    /// The position after one step toward the player's tracked location.
    pub fn update(&self, point: Point, move_info: &MoveInfo, windows: &mut Windows) -> (r: Point)
        ensures
            r == agro_step(point, move_info.char_location, self.window_bounds),
            *final(windows) == *old(windows),
    {
        let char_point = move_info.char_location;
        let mut offset = Point { x: 0, y: 0 };

        match point.compare_x(char_point) {
            XPointRelation::RightOfPoint => offset = offset.offset_x(-1),
            XPointRelation::LeftOfPoint => offset = offset.offset_x(1),
            XPointRelation::OnPointX => {},
        }

        match point.compare_y(char_point) {
            YPointRelation::BelowPoint => offset = offset.offset_y(-1),
            YPointRelation::AbovePoint => offset = offset.offset_y(1),
            YPointRelation::OnPointY => {},
        }

        match point.offset(offset).compare(char_point) {
            PointRelation::PointsEqual => point,
            PointRelation::PointsNotEqual => {
                match self.window_bounds.contains(point.offset(offset)) {
                    Contains::DoesContain => point.offset(offset),
                    Contains::DoesNotContain => point,
                }
            },
        }
    }
}

/// The movement strategy of an actor.
#[derive(Clone, Copy, Debug, PartialEq, Eq, Structural)]
pub enum MovementComponent {
    User(UserMovementComponent),
    Random(RandomMovementComponent),
    Agro(AgroMovementComponent),
}

impl MovementComponent {
    /// The rectangle the strategy keeps its actor in.
    pub open spec fn bounds(self) -> Bound {
        match self {
            MovementComponent::User(c) => c.window_bounds,
            MovementComponent::Random(c) => c.window_bounds,
            MovementComponent::Agro(c) => c.window_bounds,
        }
    }

    /// `to` is a position the strategy may return for an actor at `point`.
    /// Only the wanderer has more than one.
    pub open spec fn may_move(self, point: Point, info: MoveInfo, to: Point) -> bool {
        match self {
            MovementComponent::User(c) => to == user_step(
                point,
                info.last_keypress,
                c.window_bounds,
            ),
            MovementComponent::Random(c) => may_wander(point, c.window_bounds, to),
            MovementComponent::Agro(c) => to == agro_step(
                point,
                info.char_location,
                c.window_bounds,
            ),
        }
    }

    /// The strategy reports a refused move to the message window.
    pub open spec fn complains(self, point: Point, info: MoveInfo) -> bool {
        match self {
            MovementComponent::User(c) => user_blocked(point, info.last_keypress, c.window_bounds),
            _ => false,
        }
    }

    pub fn window_bounds(&self) -> (b: Bound)
        ensures
            b == self.bounds(),
    {
        match self {
            MovementComponent::User(c) => c.window_bounds,
            MovementComponent::Random(c) => c.window_bounds,
            MovementComponent::Agro(c) => c.window_bounds,
        }
    }

    /// The next position of an actor at `point`, by whichever strategy this is.
    pub fn update(&self, point: Point, move_info: &MoveInfo, windows: &mut Windows) -> (r: Point)
        ensures
            self.may_move(point, *move_info, r),
            final(windows)@ == (if self.complains(point, *move_info) {
                old(windows)@.report(cannot_move_text())
            } else {
                old(windows)@
            }),
    {
        match self {
            MovementComponent::User(c) => c.update(point, move_info, windows),
            MovementComponent::Random(c) => c.update(point, move_info, windows),
            MovementComponent::Agro(c) => c.update(point, move_info, windows),
        }
    }
}

/// Every strategy either leaves its actor where it is or puts it on a cell
/// of its own rectangle.
pub proof fn lemma_move_stays_or_lands_inside(
    component: MovementComponent,
    point: Point,
    info: MoveInfo,
    to: Point,
)
    requires
        component.may_move(point, info, to),
    ensures
        to == point || component.bounds().contains_spec(to),
{
}

/// A wanderer moves by at most one cell on each axis.
pub proof fn lemma_random_step_is_unit(point: Point, dx: int, dy: int, bounds: Bound)
    requires
        is_unit(dx),
        is_unit(dy),
    ensures
        is_unit(random_step(point, dx, dy, bounds).x - point.x),
        is_unit(random_step(point, dx, dy, bounds).y - point.y),
{
}

/// From a cell inside the rectangle, each axis of a wanderer's step is
/// accepted or refused on its own: whether the x roll is taken depends on
/// the x coordinate alone, and likewise for y.
pub proof fn lemma_random_axes_independent(point: Point, dx: int, dy: int, bounds: Bound)
    requires
        bounds.contains_spec(point),
    ensures
        random_step(point, dx, dy, bounds).x == (if bounds.min.x <= point.x + dx <= bounds.max.x {
            point.x + dx
        } else {
            point.x as int
        }),
        random_step(point, dx, dy, bounds).y == (if bounds.min.y <= point.y + dy <= bounds.max.y {
            point.y + dy
        } else {
            point.y as int
        }),
{
}

} // verus!
