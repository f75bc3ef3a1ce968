//! The spatial grid: a map files its actors under the cell they stand on,
//! and the four layers of the world are one map each.

use vstd::prelude::*;
use crate::actor::Actor;
use crate::movement::{cannot_move_text, lemma_move_stays_or_lands_inside, MoveInfo};
use crate::rendering::{Drawn, RenderingComponent};
use crate::util::{Bound, Contains, Point};
use crate::window::{Windows, WindowsView};

verus! {

/// The actors of one layer, filed by cell: `content[i][j]` lists those on
/// the cell `i` columns right of and `j` rows below the corner `size.min`.
#[derive(Debug)]
pub struct MapLayer {
    pub content: Vec<Vec<Vec<Actor>>>,
    pub size: Bound,
}

/// Number of columns of a grid over `size`.
pub open spec fn columns(size: Bound) -> int {
    if size.width_spec() > 0 {
        size.width_spec()
    } else {
        0
    }
}

/// Number of rows of a grid over `size`.
pub open spec fn rows(size: Bound) -> int {
    if size.height_spec() > 0 {
        size.height_spec()
    } else {
        0
    }
}

/// `content` has one column for each x of `size` and, in each column, one
/// cell for each y.
pub open spec fn shaped(content: Seq<Vec<Vec<Actor>>>, size: Bound) -> bool {
    &&& content.len() == columns(size)
    &&& forall|i: int| 0 <= i < content.len() ==> (#[trigger] content[i])@.len() == rows(size)
}

/// `actor` may be filed under column `i`, row `j` of a grid over `size`: it
/// stands on that cell, and its strategy cannot take it off the grid.
pub open spec fn homed(actor: Actor, size: Bound, i: int, j: int) -> bool {
    &&& actor.position.x == size.min.x + i
    &&& actor.position.y == size.min.y + j
    &&& size.encloses_spec(actor.movement_component.bounds())
}

/// The actors of the first `j` cells of a column, top to bottom.
pub open spec fn column_upto(column: Seq<Vec<Actor>>, j: int) -> Seq<Actor>
    decreases j,
{
    if j <= 0 {
        Seq::empty()
    } else {
        column_upto(column, j - 1) + column[j - 1]@
    }
}

/// The actors of the first `i` columns of a grid, left to right.
pub open spec fn grid_upto(content: Seq<Vec<Vec<Actor>>>, i: int) -> Seq<Actor>
    decreases i,
{
    if i <= 0 {
        Seq::empty()
    } else {
        grid_upto(content, i - 1) + column_upto(content[i - 1]@, content[i - 1]@.len() as int)
    }
}

/// What a turn changes besides the grids: the blackboard and the windows.
pub struct Turn {
    pub info: MoveInfo,
    pub windows: WindowsView,
}

/// The turn state after `actor` has become `next`: the player's new
/// position is published, and a refused move is reported.
pub open spec fn turn_step(t: Turn, actor: Actor, next: Actor) -> Turn {
    Turn {
        info: if next.is_pc {
            MoveInfo { char_location: next.position, ..t.info }
        } else {
            t.info
        },
        windows: if actor.complains(t.info) {
            t.windows.report(cannot_move_text())
        } else {
            t.windows
        },
    }
}

/// The turn state after the `actors` have become `moved`, one after the
/// other.
pub open spec fn turn_after(start: Turn, actors: Seq<Actor>, moved: Seq<Actor>) -> Turn
    decreases actors.len(),
{
    if actors.len() == 0 || moved.len() != actors.len() {
        start
    } else {
        turn_step(
            turn_after(start, actors.drop_last(), moved.drop_last()),
            actors.last(),
            moved.last(),
        )
    }
}

/// `moved` is a possible outcome of the `actors` taking their turns in
/// order: each becomes what its strategy allows on the turn state that the
/// actors before it have left.
pub open spec fn moves_valid(start: Turn, actors: Seq<Actor>, moved: Seq<Actor>) -> bool
    decreases actors.len(),
{
    &&& moved.len() == actors.len()
    &&& actors.len() > 0 ==> {
        &&& moves_valid(start, actors.drop_last(), moved.drop_last())
        &&& actors.last().may_become(
            turn_after(start, actors.drop_last(), moved.drop_last()).info,
            moved.last(),
        )
    }
}

/// The actors that stand on `p`.
pub open spec fn stands_on(p: Point) -> spec_fn(Actor) -> bool {
    |a: Actor| a.position == p
}

/// `actor` stands on a cell of `size` and its strategy keeps it there.
pub open spec fn stays_on_grid(actor: Actor, size: Bound) -> bool {
    &&& size.contains_spec(actor.position)
    &&& size.encloses_spec(actor.movement_component.bounds())
}

/// The point filed under column `i`, row `j` of a grid over `size`.
pub open spec fn cell_point(size: Bound, i: int, j: int) -> Point {
    Point::at(size.min.x + i, size.min.y + j)
}

/// A turn in progress: `done` have become `moved`, `grid` holds exactly
/// the moved actors, each under its cell, and `now` is the turn state.
spec fn progress(
    size: Bound,
    start: Turn,
    done: Seq<Actor>,
    moved: Seq<Actor>,
    grid: Seq<Vec<Vec<Actor>>>,
    now: Turn,
) -> bool {
    &&& moves_valid(start, done, moved)
    &&& now == turn_after(start, done, moved)
    &&& shaped(grid, size)
    &&& forall|i: int, j: int|
        0 <= i < columns(size) && 0 <= j < rows(size) ==> (#[trigger] grid[i]@[j])@
            == moved.filter(stands_on(cell_point(size, i, j)))
    &&& forall|m: int| 0 <= m < moved.len() ==> stays_on_grid(#[trigger] moved[m], size)
}

/// An actor that stays on the grid does so after its turn as well.
proof fn lemma_next_on_grid(actor: Actor, size: Bound, info: MoveInfo, next: Actor)
    requires
        stays_on_grid(actor, size),
        actor.may_become(info, next),
    ensures
        stays_on_grid(next, size),
{
    lemma_move_stays_or_lands_inside(actor.movement_component, actor.position, info, next.position);
}

/// One actor's turn keeps the turn in progress consistent.
proof fn lemma_progress_step(
    size: Bound,
    start: Turn,
    done: Seq<Actor>,
    moved: Seq<Actor>,
    grid: Seq<Vec<Vec<Actor>>>,
    now: Turn,
    actor: Actor,
    next: Actor,
    grid2: Seq<Vec<Vec<Actor>>>,
)
    requires
        progress(size, start, done, moved, grid, now),
        stays_on_grid(next, size),
        actor.may_become(now.info, next),
        shaped(grid2, size),
        forall|i: int, j: int|
            0 <= i < columns(size) && 0 <= j < rows(size) ==> (#[trigger] grid2[i]@[j])@ == (if i
                == next.position.x - size.min.x && j == next.position.y - size.min.y {
                grid[i]@[j]@.push(next)
            } else {
                grid[i]@[j]@
            }),
    ensures
        progress(size, start, done.push(actor), moved.push(next), grid2, turn_step(now, actor, next)),
{
    broadcast use Seq::lemma_filter_push;

    let done2 = done.push(actor);
    let moved2 = moved.push(next);
    assert(done2.drop_last() =~= done);
    assert(moved2.drop_last() =~= moved);
    assert(done2.last() == actor);
    assert(moved2.last() == next);
    assert forall|i: int, j: int|
        0 <= i < columns(size) && 0 <= j < rows(size) implies (#[trigger] grid2[i]@[j])@
        == moved2.filter(stands_on(cell_point(size, i, j))) by {
        let p = cell_point(size, i, j);
        assert(stands_on(p)(next) == (next.position == p));
        assert(grid[i]@[j]@ == moved.filter(stands_on(p)));
    }
}

/// The turn state that the blackboard and the windows stand for.
pub open spec fn turn_of(info: MoveInfo, windows: Windows) -> Turn {
    Turn { info, windows: windows@ }
}

/// Takes one actor's turn and files the result in `grid`.
fn take_turn(
    actor: Actor,
    size: Bound,
    grid: &mut Vec<Vec<Vec<Actor>>>,
    move_info: &mut MoveInfo,
    windows: &mut Windows,
    Ghost(start): Ghost<Turn>,
    Ghost(done): Ghost<Seq<Actor>>,
    Ghost(moved): Ghost<Seq<Actor>>,
) -> (next: Actor)
    requires
        progress(size, start, done, moved, old(grid)@, turn_of(*old(move_info), *old(windows))),
        stays_on_grid(actor, size),
    ensures
        progress(
            size,
            start,
            done.push(actor),
            moved.push(next),
            final(grid)@,
            turn_of(*final(move_info), *final(windows)),
        ),
{
    let ghost now = turn_of(*move_info, *windows);
    let mut next = actor;
    next.update(move_info, windows);
    proof {
        lemma_next_on_grid(actor, size, now.info, next);
    }
    if next.is_pc {
        move_info.char_location = next.position;
    }
    let point = next.position;
    let i: i64 = point.x as i64 - size.min.x as i64;
    let j: i64 = point.y as i64 - size.min.y as i64;
    grid[i as usize][j as usize].push(next);
    proof {
        lemma_progress_step(size, start, done, moved, old(grid)@, now, actor, next, grid@);
    }
    next
}

/// Takes the turns of the actors of one cell, in the order they are filed.
fn turn_cell(
    cell: &Vec<Actor>,
    size: Bound,
    grid: &mut Vec<Vec<Vec<Actor>>>,
    move_info: &mut MoveInfo,
    windows: &mut Windows,
    Ghost(start): Ghost<Turn>,
    Ghost(done): Ghost<Seq<Actor>>,
    Ghost(moved): Ghost<Seq<Actor>>,
) -> (out: Ghost<Seq<Actor>>)
    requires
        progress(size, start, done, moved, old(grid)@, turn_of(*old(move_info), *old(windows))),
        forall|k: int| 0 <= k < cell@.len() ==> stays_on_grid(#[trigger] cell@[k], size),
    ensures
        progress(
            size,
            start,
            done + cell@,
            out@,
            final(grid)@,
            turn_of(*final(move_info), *final(windows)),
        ),
{
    let ghost mut so_far = moved;
    let mut k: usize = 0;
    assert(done + cell@.take(0) =~= done);
    while k < cell.len()
        invariant
            k <= cell@.len(),
            progress(
                size,
                start,
                done + cell@.take(k as int),
                so_far,
                grid@,
                turn_of(*move_info, *windows),
            ),
            forall|k: int| 0 <= k < cell@.len() ==> stays_on_grid(#[trigger] cell@[k], size),
        decreases cell@.len() - k,
    {
        let actor = cell[k];
        let next = take_turn(
            actor,
            size,
            grid,
            move_info,
            windows,
            Ghost(start),
            Ghost(done + cell@.take(k as int)),
            Ghost(so_far),
        );
        proof {
            assert((done + cell@.take(k as int)).push(actor) =~= done + cell@.take(k + 1));
            so_far = so_far.push(next);
        }
        k = k + 1;
    }
    assert(cell@.take(k as int) =~= cell@);
    Ghost(so_far)
}

/// Takes the turns of the actors of one column, top to bottom.
fn turn_column(
    column: &Vec<Vec<Actor>>,
    size: Bound,
    grid: &mut Vec<Vec<Vec<Actor>>>,
    move_info: &mut MoveInfo,
    windows: &mut Windows,
    Ghost(start): Ghost<Turn>,
    Ghost(done): Ghost<Seq<Actor>>,
    Ghost(moved): Ghost<Seq<Actor>>,
) -> (out: Ghost<Seq<Actor>>)
    requires
        progress(size, start, done, moved, old(grid)@, turn_of(*old(move_info), *old(windows))),
        forall|j: int, k: int|
            0 <= j < column@.len() && 0 <= k < column@[j]@.len() ==> stays_on_grid(
                #[trigger] column@[j]@[k],
                size,
            ),
    ensures
        progress(
            size,
            start,
            done + column_upto(column@, column@.len() as int),
            out@,
            final(grid)@,
            turn_of(*final(move_info), *final(windows)),
        ),
{
    let ghost mut so_far = moved;
    let mut j: usize = 0;
    assert(done + column_upto(column@, 0) =~= done);
    while j < column.len()
        invariant
            j <= column@.len(),
            progress(
                size,
                start,
                done + column_upto(column@, j as int),
                so_far,
                grid@,
                turn_of(*move_info, *windows),
            ),
            forall|j: int, k: int|
                0 <= j < column@.len() && 0 <= k < column@[j]@.len() ==> stays_on_grid(
                    #[trigger] column@[j]@[k],
                    size,
                ),
        decreases column@.len() - j,
    {
        let out = turn_cell(
            &column[j],
            size,
            grid,
            move_info,
            windows,
            Ghost(start),
            Ghost(done + column_upto(column@, j as int)),
            Ghost(so_far),
        );
        proof {
            assert(done + column_upto(column@, j as int) + column@[j as int]@ =~= done
                + column_upto(column@, j + 1));
            so_far = out@;
        }
        j = j + 1;
    }
    Ghost(so_far)
}

/// How `actors` are drawn, one glyph each, in order.
pub open spec fn glyphs(actors: Seq<Actor>) -> Seq<Drawn> {
    Seq::new(actors.len(), |k: int| actors[k].glyph())
}

/// Draws the actors of one cell.
fn render_cell<R: RenderingComponent>(cell: &Vec<Actor>, renderer: &mut R)
    ensures
        final(renderer).frame() == old(renderer).frame() + glyphs(cell@),
        final(renderer).root_size() == old(renderer).root_size(),
{
    let mut k: usize = 0;
    assert(old(renderer).frame() + glyphs(cell@.take(0)) =~= old(renderer).frame());
    while k < cell.len()
        invariant
            k <= cell@.len(),
            renderer.frame() == old(renderer).frame() + glyphs(cell@.take(k as int)),
            renderer.root_size() == old(renderer).root_size(),
        decreases cell@.len() - k,
    {
        cell[k].render(renderer);
        assert((old(renderer).frame() + glyphs(cell@.take(k as int))).push(cell@[k as int].glyph())
            =~= old(renderer).frame() + glyphs(cell@.take(k + 1)));
        k = k + 1;
    }
    assert(cell@.take(k as int) =~= cell@);
}

/// Draws the actors of one column, top to bottom.
fn render_column<R: RenderingComponent>(column: &Vec<Vec<Actor>>, renderer: &mut R)
    ensures
        final(renderer).frame() == old(renderer).frame() + glyphs(
            column_upto(column@, column@.len() as int),
        ),
        final(renderer).root_size() == old(renderer).root_size(),
{
    let mut j: usize = 0;
    assert(old(renderer).frame() + glyphs(column_upto(column@, 0)) =~= old(renderer).frame());
    while j < column.len()
        invariant
            j <= column@.len(),
            renderer.frame() == old(renderer).frame() + glyphs(column_upto(column@, j as int)),
            renderer.root_size() == old(renderer).root_size(),
        decreases column@.len() - j,
    {
        render_cell(&column[j], renderer);
        assert(old(renderer).frame() + glyphs(column_upto(column@, j as int)) + glyphs(
            column@[j as int]@,
        ) =~= old(renderer).frame() + glyphs(column_upto(column@, j + 1)));
        j = j + 1;
    }
}

/// Whether every actor of `cell` may be filed under column `i`, row `j`.
fn cell_homed(cell: &Vec<Actor>, size: Bound, i: usize, j: usize) -> (r: bool)
    ensures
        r == (forall|k: int| 0 <= k < cell@.len() ==> homed(#[trigger] cell@[k], size, i as int, j as int)),
{
    let mut k: usize = 0;
    while k < cell.len()
        invariant
            k <= cell@.len(),
            forall|n: int| 0 <= n < k ==> homed(#[trigger] cell@[n], size, i as int, j as int),
        decreases cell@.len() - k,
    {
        let actor = cell[k];
        let stands = actor.position.x as i128 == size.min.x as i128 + i as i128
            && actor.position.y as i128 == size.min.y as i128 + j as i128;
        if !stands || !size.encloses(actor.movement_component.window_bounds()) {
            assert(!homed(cell@[k as int], size, i as int, j as int));
            return false;
        }
        k = k + 1;
    }
    true
}

/// Whether `column` has a cell for each row of `size` and every actor in
/// it may be filed where it is, `column` being column `i` of the grid.
fn column_homed(column: &Vec<Vec<Actor>>, size: Bound, i: usize) -> (r: bool)
    ensures
        r == {
            &&& column@.len() == rows(size)
            &&& forall|j: int, k: int|
                0 <= j < column@.len() && 0 <= k < column@[j]@.len() ==> homed(
                    #[trigger] column@[j]@[k],
                    size,
                    i as int,
                    j,
                )
        },
{
    let height: i64 = size.height();
    let wanted: i64 = if height > 0 {
        height
    } else {
        0
    };
    if column.len() as i128 != wanted as i128 {
        return false;
    }
    let mut j: usize = 0;
    while j < column.len()
        invariant
            j <= column@.len(),
            column@.len() == rows(size),
            forall|m: int, k: int|
                0 <= m < j && 0 <= k < column@[m]@.len() ==> homed(
                    #[trigger] column@[m]@[k],
                    size,
                    i as int,
                    m,
                ),
        decreases column@.len() - j,
    {
        if !cell_homed(&column[j], size, i, j) {
            let ghost k = choose|k: int|
                0 <= k < column@[j as int]@.len() && !homed(
                    #[trigger] column@[j as int]@[k],
                    size,
                    i as int,
                    j as int,
                );
            assert(!homed(column@[j as int]@[k], size, i as int, j as int));
            return false;
        }
        j = j + 1;
    }
    true
}

impl MapLayer {
    /// The grid matches `size`, and every actor is filed under the cell it
    /// stands on.
    pub open spec fn wf(self) -> bool {
        &&& shaped(self.content@, self.size)
        &&& forall|i: int, j: int, k: int|
            0 <= i < columns(self.size) && 0 <= j < rows(self.size) && 0 <= k
                < self.content@[i]@[j]@.len() ==> homed(
                #[trigger] self.content@[i]@[j]@[k],
                self.size,
                i,
                j,
            )
    }

    /// The actors on the cell `p`, in the order they were filed; none
    /// outside the map.
    pub open spec fn cell(self, p: Point) -> Seq<Actor> {
        if self.size.contains_spec(p) {
            self.content@[p.x - self.size.min.x]@[p.y - self.size.min.y]@
        } else {
            Seq::empty()
        }
    }

    /// All actors of the map in grid order: by ascending x, then ascending
    /// y, then as filed within the cell.
    pub open spec fn actors(self) -> Seq<Actor> {
        grid_upto(self.content@, self.content@.len() as int)
    }

    /// The first actor on the cell `p`, if there is one.
    pub open spec fn first_at(self, p: Point) -> Option<Actor> {
        if self.cell(p).len() > 0 {
            Some(self.cell(p)[0])
        } else {
            None
        }
    }

    /// One turn takes this map to `after` and the turn state from `start`
    /// to `end`, the actors becoming `moved`: every actor takes its turn
    /// in grid order, and `after` files each moved actor under the cell it
    /// then stands on, in that same order.
    pub open spec fn turned(self, start: Turn, moved: Seq<Actor>, after: MapLayer, end: Turn) -> bool {
        &&& moves_valid(start, self.actors(), moved)
        &&& end == turn_after(start, self.actors(), moved)
        &&& after.size == self.size
        &&& after.wf()
        &&& forall|m: int| 0 <= m < moved.len() ==> self.size.contains_spec(#[trigger] moved[m].position)
        &&& forall|p: Point|
            self.size.contains_spec(p) ==> #[trigger] after.cell(p) == moved.filter(stands_on(p))
    }

    /// One turn can take this map to `after` and the turn state from
    /// `start` to `end`.
    pub open spec fn takes_turn(self, start: Turn, after: MapLayer, end: Turn) -> bool {
        exists|moved: Seq<Actor>| self.turned(start, moved, after, end)
    }

    /// An empty map over the world's bounds.
    pub fn new(move_info: &MoveInfo) -> (m: MapLayer)
        ensures
            m.wf(),
            m.size == move_info.bounds,
            forall|p: Point| (#[trigger] m.cell(p)).len() == 0,
    {
        let size = move_info.bounds;
        let content = MapLayer::init_contents(size);
        MapLayer { content: content, size: size }
    }

    /// An empty grid over `size`: one empty cell for each point of it.
    pub fn init_contents(size: Bound) -> (contents: Vec<Vec<Vec<Actor>>>)
        ensures
            shaped(contents@, size),
            forall|i: int, j: int|
                0 <= i < columns(size) && 0 <= j < rows(size) ==> (#[trigger] contents@[i]@[j])@.len()
                    == 0,
    {
        let mut contents: Vec<Vec<Vec<Actor>>> = Vec::new();
        let mut x: i64 = size.min.x as i64;
        while x <= size.max.x as i64
            invariant
                size.min.x <= x <= size.max.x + 1 || (x == size.min.x && columns(size) == 0),
                contents@.len() == x - size.min.x,
                forall|i: int| 0 <= i < contents@.len() ==> (#[trigger] contents@[i])@.len() == rows(size),
                forall|i: int, j: int|
                    0 <= i < contents@.len() && 0 <= j < rows(size) ==> (#[trigger] contents@[i]@[j])@.len()
                        == 0,
            decreases size.max.x + 1 - x,
        {
            let mut x_vec: Vec<Vec<Actor>> = Vec::new();
            let mut y: i64 = size.min.y as i64;
            while y <= size.max.y as i64
                invariant
                    size.min.y <= y <= size.max.y + 1 || (y == size.min.y && rows(size) == 0),
                    x_vec@.len() == y - size.min.y,
                    forall|j: int| 0 <= j < x_vec@.len() ==> (#[trigger] x_vec@[j])@.len() == 0,
                decreases size.max.y + 1 - y,
            {
                let y_vec: Vec<Actor> = Vec::new();
                x_vec.push(y_vec);
                y = y + 1;
            }
            contents.push(x_vec);
            x = x + 1;
        }
        contents
    }

    /// The column and row under which the cell `point` of the map is filed.
    fn index_of(&self, point: Point) -> (ij: (usize, usize))
        requires
            shaped(self.content@, self.size),
            self.size.contains_spec(point),
        ensures
            ij.0 == point.x - self.size.min.x,
            ij.1 == point.y - self.size.min.y,
            ij.0 < columns(self.size),
            ij.1 < rows(self.size),
    {
        let i: i64 = point.x as i64 - self.size.min.x as i64;
        let j: i64 = point.y as i64 - self.size.min.y as i64;
        (i as usize, j as usize)
    }

    /// Whether the map is well-formed: the check that `wf` states.
    pub fn is_well_formed(&self) -> (r: bool)
        ensures
            r == self.wf(),
    {
        let width: i64 = self.size.width();
        let wanted: i64 = if width > 0 {
            width
        } else {
            0
        };
        if self.content.len() as i128 != wanted as i128 {
            return false;
        }
        let mut i: usize = 0;
        while i < self.content.len()
            invariant
                i <= self.content@.len(),
                self.content@.len() == columns(self.size),
                forall|n: int| 0 <= n < i ==> (#[trigger] self.content@[n])@.len() == rows(self.size),
                forall|n: int, j: int, k: int|
                    0 <= n < i && 0 <= j < rows(self.size) && 0 <= k < self.content@[n]@[j]@.len()
                        ==> homed(#[trigger] self.content@[n]@[j]@[k], self.size, n, j),
            decreases self.content@.len() - i,
        {
            if !column_homed(&self.content[i], self.size, i) {
                proof {
                    let column = self.content@[i as int];
                    if column@.len() == rows(self.size) {
                        let (j, k) = choose|j: int, k: int|
                            0 <= j < column@.len() && 0 <= k < column@[j]@.len() && !homed(
                                #[trigger] column@[j]@[k],
                                self.size,
                                i as int,
                                j,
                            );
                        assert(!homed(self.content@[i as int]@[j]@[k], self.size, i as int, j));
                    }
                }
                return false;
            }
            i = i + 1;
        }
        true
    }

    /// Whether `actor` may be filed under `point`: the map holds the
    /// point, the actor stands on it, and its strategy keeps it on the map.
    pub fn accepts(&self, point: Point, actor: &Actor) -> (r: bool)
        ensures
            r == {
                &&& self.size.contains_spec(point)
                &&& actor.position == point
                &&& self.size.encloses_spec(actor.movement_component.bounds())
            },
    {
        match self.size.contains(point) {
            Contains::DoesNotContain => false,
            Contains::DoesContain => actor.position.x == point.x && actor.position.y == point.y
                && self.size.encloses(actor.movement_component.window_bounds()),
        }
    }

    /// Files `actor` under the cell `point`, behind those already there.
    pub fn push_actor(&mut self, point: Point, actor: Actor)
        requires
            old(self).wf(),
            old(self).size.contains_spec(point),
            actor.position == point,
            old(self).size.encloses_spec(actor.movement_component.bounds()),
        ensures
            final(self).wf(),
            final(self).size == old(self).size,
            final(self).cell(point) == old(self).cell(point).push(actor),
            forall|q: Point| q != point ==> final(self).cell(q) == old(self).cell(q),
    {
        let (i, j) = self.index_of(point);
        self.content[i][j].push(actor);
    }
    /// Takes one turn: every actor moves by its strategy, in grid order;
    /// the player publishes its new position; the grid is rebuilt from the
    /// moved actors.
    pub fn update(&mut self, move_info: &mut MoveInfo, windows: &mut Windows)
        requires
            old(self).wf(),
        ensures
            final(self).wf(),
            final(self).size == old(self).size,
            old(self).takes_turn(
                turn_of(*old(move_info), *old(windows)),
                *final(self),
                turn_of(*final(move_info), *final(windows)),
            ),
    {
        broadcast use {Seq::lemma_filter_pred, Seq::lemma_filter_contains_rev, Seq::lemma_filter_len};

        let ghost start = turn_of(*move_info, *windows);
        let size = self.size;
        let mut new_content = MapLayer::init_contents(size);
        let ghost mut so_far = Seq::<Actor>::empty();
        assert forall|i: int, j: int|
            0 <= i < columns(size) && 0 <= j < rows(size) implies (#[trigger] new_content@[i]@[j])@
            == so_far.filter(stands_on(cell_point(size, i, j))) by {
            assert(new_content@[i]@[j]@ =~= so_far.filter(stands_on(cell_point(size, i, j))));
        }
        let mut i: usize = 0;
        while i < self.content.len()
            invariant
                i <= self.content@.len(),
                *self == *old(self),
                self.wf(),
                size == self.size,
                progress(
                    size,
                    start,
                    grid_upto(self.content@, i as int),
                    so_far,
                    new_content@,
                    turn_of(*move_info, *windows),
                ),
            decreases self.content@.len() - i,
        {
            assert forall|j: int, k: int|
                0 <= j < self.content@[i as int]@.len() && 0 <= k
                    < self.content@[i as int]@[j]@.len() implies stays_on_grid(
                #[trigger] self.content@[i as int]@[j]@[k],
                size,
            ) by {
                assert(homed(self.content@[i as int]@[j]@[k], size, i as int, j));
            }
            let out = turn_column(
                &self.content[i],
                size,
                &mut new_content,
                move_info,
                windows,
                Ghost(start),
                Ghost(grid_upto(self.content@, i as int)),
                Ghost(so_far),
            );
            proof {
                so_far = out@;
            }
            i = i + 1;
        }
        proof {
            assert forall|i: int, j: int, k: int|
                0 <= i < columns(size) && 0 <= j < rows(size) && 0 <= k
                    < new_content@[i]@[j]@.len() implies homed(
                #[trigger] new_content@[i]@[j]@[k],
                size,
                i,
                j,
            ) by {
                let p = cell_point(size, i, j);
                let filed = so_far.filter(stands_on(p));
                assert(new_content@[i]@[j]@ == filed);
                assert(stands_on(p)(filed[k]));
                assert(filed.contains(filed[k]));
                assert(so_far.contains(filed[k]));
            }
        }
        self.content = new_content;
        proof {
            assert forall|p: Point| self.size.contains_spec(p) implies #[trigger] self.cell(p)
                == so_far.filter(stands_on(p)) by {
                assert(cell_point(size, p.x - size.min.x, p.y - size.min.y) == p);
            }
            assert(old(self).turned(start, so_far, *self, turn_of(*move_info, *windows)));
        }
    }

    /// Draws every actor on the cell it stands on, in grid order.
    pub fn render<R: RenderingComponent>(&self, renderer: &mut R)
        ensures
            final(renderer).frame() == old(renderer).frame() + glyphs(self.actors()),
            final(renderer).root_size() == old(renderer).root_size(),
    {
        let mut i: usize = 0;
        assert(old(renderer).frame() + glyphs(grid_upto(self.content@, 0))
            =~= old(renderer).frame());
        while i < self.content.len()
            invariant
                i <= self.content@.len(),
                renderer.frame() == old(renderer).frame() + glyphs(
                    grid_upto(self.content@, i as int),
                ),
                renderer.root_size() == old(renderer).root_size(),
            decreases self.content@.len() - i,
        {
            render_column(&self.content[i], renderer);
            assert(old(renderer).frame() + glyphs(grid_upto(self.content@, i as int)) + glyphs(
                column_upto(self.content@[i as int]@, self.content@[i as int]@.len() as int),
            ) =~= old(renderer).frame() + glyphs(grid_upto(self.content@, i + 1)));
            i = i + 1;
        }
    }
}

/// In a well-formed map every actor is filed under the cell it stands on,
/// and every filed actor stands on a cell of the map.
pub proof fn lemma_filed_where_it_stands(map: MapLayer, i: int, j: int, k: int)
    requires
        map.wf(),
        0 <= i < map.content@.len(),
        0 <= j < map.content@[i]@.len(),
        0 <= k < map.content@[i]@[j]@.len(),
    ensures
        map.content@[i]@[j]@[k].position == cell_point(map.size, i, j),
        map.size.contains_spec(map.content@[i]@[j]@[k].position),
        map.cell(map.content@[i]@[j]@[k].position) == map.content@[i]@[j]@,
{
    assert(homed(map.content@[i]@[j]@[k], map.size, i, j));
}

/// Every actor on the cell `p` of a well-formed map has `p` as its position.
pub proof fn lemma_cell_holds_its_own(map: MapLayer, p: Point, k: int)
    requires
        map.wf(),
        0 <= k < map.cell(p).len(),
    ensures
        map.cell(p)[k].position == p,
{
    assert(homed(
        map.content@[p.x - map.size.min.x]@[p.y - map.size.min.y]@[k],
        map.size,
        p.x - map.size.min.x,
        p.y - map.size.min.y,
    ));
}

/// A turn loses no actor and invents none: every moved actor is filed
/// under the cell it stands on, and whoever is filed after the turn is one
/// of the moved actors.
pub proof fn lemma_turn_keeps_the_actors(
    before: MapLayer,
    start: Turn,
    moved: Seq<Actor>,
    after: MapLayer,
    end: Turn,
)
    requires
        before.turned(start, moved, after, end),
    ensures
        moved.len() == before.actors().len(),
        forall|m: int|
            0 <= m < moved.len() ==> after.cell((#[trigger] moved[m]).position).contains(moved[m]),
        forall|p: Point, k: int|
            0 <= k < after.cell(p).len() ==> moved.contains(#[trigger] after.cell(p)[k]),
{
    broadcast use {Seq::lemma_filter_contains, Seq::lemma_filter_contains_rev};

    assert forall|m: int| 0 <= m < moved.len() implies after.cell(
        (#[trigger] moved[m]).position,
    ).contains(moved[m]) by {
        let p = moved[m].position;
        assert(before.size.contains_spec(p));
        assert(stands_on(p)(moved[m]));
        assert(moved.filter(stands_on(p)).contains(moved[m]));
    }
    assert forall|p: Point, k: int| 0 <= k < after.cell(p).len() implies moved.contains(
        #[trigger] after.cell(p)[k],
    ) by {
        assert(after.cell(p) == moved.filter(stands_on(p)));
        assert(moved.filter(stands_on(p)).contains(after.cell(p)[k]));
    }
}

/// The four layers of the world.
#[derive(Debug)]
pub struct Maps {
    pub terrain: MapLayer,
    pub enemies: MapLayer,
    pub friends: MapLayer,
    pub pcs: MapLayer,
}

impl Maps {
    /// Every layer is well-formed.
    pub open spec fn wf(self) -> bool {
        &&& self.terrain.wf()
        &&& self.enemies.wf()
        &&& self.friends.wf()
        &&& self.pcs.wf()
    }

    /// One turn can take these layers to `after` and the turn state from
    /// `start` to `end`: the player characters move first, then the
    /// terrain, the friends and the enemies, each layer on the turn state
    /// that the one before it has left.
    pub open spec fn takes_turn(self, start: Turn, after: Maps, end: Turn) -> bool {
        exists|after_pcs: Turn, after_terrain: Turn, after_friends: Turn|
            {
                &&& #[trigger] self.pcs.takes_turn(start, after.pcs, after_pcs)
                &&& #[trigger] self.terrain.takes_turn(after_pcs, after.terrain, after_terrain)
                &&& #[trigger] self.friends.takes_turn(after_terrain, after.friends, after_friends)
                &&& self.enemies.takes_turn(after_friends, after.enemies, end)
            }
    }

    /// Four empty layers over the world's bounds.
    pub fn new(move_info: &MoveInfo) -> (m: Maps)
        ensures
            m.wf(),
            m.terrain.size == move_info.bounds,
            m.enemies.size == move_info.bounds,
            m.friends.size == move_info.bounds,
            m.pcs.size == move_info.bounds,
            forall|p: Point| (#[trigger] m.terrain.cell(p)).len() == 0,
            forall|p: Point| (#[trigger] m.enemies.cell(p)).len() == 0,
            forall|p: Point| (#[trigger] m.friends.cell(p)).len() == 0,
            forall|p: Point| (#[trigger] m.pcs.cell(p)).len() == 0,
    {
        let terrain = MapLayer::new(move_info);
        let enemies = MapLayer::new(move_info);
        let friends = MapLayer::new(move_info);
        let pcs = MapLayer::new(move_info);

        Maps { friends: friends, enemies: enemies, terrain: terrain, pcs: pcs }
    }

    /// Whether every layer is well-formed.
    pub fn is_well_formed(&self) -> (r: bool)
        ensures
            r == self.wf(),
    {
        self.terrain.is_well_formed() && self.enemies.is_well_formed()
            && self.friends.is_well_formed() && self.pcs.is_well_formed()
    }

    /// Takes one turn on every layer: player characters, terrain, friends,
    /// enemies. Afterwards every actor of every layer is again filed under
    /// the cell it stands on.
    pub fn update(&mut self, move_info: &mut MoveInfo, windows: &mut Windows)
        requires
            old(self).wf(),
        ensures
            final(self).wf(),
            old(self).takes_turn(
                turn_of(*old(move_info), *old(windows)),
                *final(self),
                turn_of(*final(move_info), *final(windows)),
            ),
    {
        let ghost start = turn_of(*move_info, *windows);
        self.pcs.update(move_info, windows);
        let ghost after_pcs = turn_of(*move_info, *windows);
        self.terrain.update(move_info, windows);
        let ghost after_terrain = turn_of(*move_info, *windows);
        self.friends.update(move_info, windows);
        let ghost after_friends = turn_of(*move_info, *windows);
        self.enemies.update(move_info, windows);
        proof {
            assert(old(self).pcs.takes_turn(start, self.pcs, after_pcs));
            assert(old(self).terrain.takes_turn(after_pcs, self.terrain, after_terrain));
            assert(old(self).friends.takes_turn(after_terrain, self.friends, after_friends));
        }
    }

    /// Draws the layers bottom to top: terrain, friends, enemies, player
    /// characters.
    pub fn render<R: RenderingComponent>(&self, renderer: &mut R)
        ensures
            final(renderer).frame() == old(renderer).frame() + glyphs(self.terrain.actors())
                + glyphs(self.friends.actors()) + glyphs(self.enemies.actors()) + glyphs(
                self.pcs.actors(),
            ),
            final(renderer).root_size() == old(renderer).root_size(),
    {
        self.terrain.render(renderer);
        self.friends.render(renderer);
        self.enemies.render(renderer);
        self.pcs.render(renderer);
    }

    /// The first enemy on the cell `point`, if any stands there. No enemy
    /// stands on a point outside the map.
    pub fn enemy_at(&self, point: Point) -> (r: Option<&Actor>)
        requires
            self.enemies.wf(),
        ensures
            r.is_some() == self.enemies.first_at(point).is_some(),
            r.is_some() ==> *r.unwrap() == self.enemies.first_at(point).unwrap(),
            r.is_some() ==> r.unwrap().position == point,
    {
        match self.enemies.size.contains(point) {
            Contains::DoesNotContain => None,
            Contains::DoesContain => {
                let (i, j) = self.enemies.index_of(point);
                let enemies_at_point = &self.enemies.content[i][j];
                if enemies_at_point.len() > 0 {
                    proof {
                        lemma_cell_holds_its_own(self.enemies, point, 0);
                    }
                    Some(&enemies_at_point[0])
                } else {
                    None
                }
            },
        }
    }
}

/// Asking twice for the enemy on a cell, with no turn taken in between,
/// gives the same answer.
pub proof fn lemma_enemy_at_is_stable(
    maps: Maps,
    point: Point,
    first: Option<&Actor>,
    second: Option<&Actor>,
)
    requires
        maps.enemies.wf(),
        call_ensures(Maps::enemy_at, (&maps, point), first),
        call_ensures(Maps::enemy_at, (&maps, point), second),
    ensures
        first == second,
{
}

} // verus!
