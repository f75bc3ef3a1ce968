//! The renderer as the game sees it: a frame is the ordered list of what the
//! terminal backend is asked to draw.

use vstd::prelude::*;
use crate::input::{key_meaning, InputComponent, KeyState, KeyboardInput, TcodInputComponent};
use crate::util::{Bound, Point};
use crate::window::{lines_of, Color, WindowComponent, WindowView};

verus! {

/// One request to the terminal backend.
#[derive(Debug, PartialEq, Eq)]
pub enum DrawCommand {
    /// Wipe the root console.
    Clear,
    /// Fill a window with its background colour, print its lines from the
    /// top, one per row, and copy its top-left `width` x `height` cells onto
    /// the root console at `target`.
    Window { background: Color, lines: Vec<String>, width: i64, height: i64, target: Point },
    /// Put `symbol` on the cell at `position`.
    Glyph { position: Point, symbol: char },
    /// Show the finished frame.
    Flush,
}

/// A request as a mathematical value.
pub enum Drawn {
    Clear,
    Window { background: Color, lines: Seq<Seq<char>>, width: int, height: int, target: Point },
    Glyph { position: Point, symbol: char },
    Flush,
}

impl View for DrawCommand {
    type V = Drawn;

    open spec fn view(&self) -> Drawn {
        match *self {
            DrawCommand::Clear => Drawn::Clear,
            DrawCommand::Window { background, lines, width, height, target } => Drawn::Window {
                background,
                lines: lines_of(lines@),
                width: width as int,
                height: height as int,
                target,
            },
            DrawCommand::Glyph { position, symbol } => Drawn::Glyph { position, symbol },
            DrawCommand::Flush => Drawn::Flush,
        }
    }
}

impl DrawCommand {
    /// The request to put `symbol` on the cell at `position`.
    pub fn glyph(position: Point, symbol: char) -> (c: DrawCommand)
        ensures
            c@ == (Drawn::Glyph { position, symbol }),
    {
        DrawCommand::Glyph { position: position, symbol: symbol }
    }
}

/// The requests that a list of commands stands for.
pub open spec fn drawn(commands: Seq<DrawCommand>) -> Seq<Drawn> {
    Seq::new(commands.len(), |i: int| commands[i]@)
}

/// How a window is drawn: its lines on its colour, copied to where its
/// rectangle starts. The copied area reaches from the window's own origin
/// to one past the rectangle's far corner.
pub open spec fn window_drawn(window: WindowView) -> Drawn {
    Drawn::Window {
        background: window.background_color,
        lines: window.lines,
        width: window.bounds.max.x + 1,
        height: window.bounds.max.y + 1,
        target: window.bounds.min,
    }
}

/// What the game asks of a renderer.
pub trait RenderingComponent: Sized {
    /// The frame drawn so far.
    spec fn frame(&self) -> Seq<Drawn>;

    /// Columns and rows of the root console.
    spec fn root_size(&self) -> (int, int);

    /// A renderer whose root console covers `bound` from the origin.
    fn new(bound: Bound) -> (r: Self)
        ensures
            r.frame() == Seq::<Drawn>::empty(),
            r.root_size() == (bound.max.x + 1, bound.max.y + 1),
    ;

    /// Starts a frame: whatever was drawn before is wiped.
    fn before_render_new_frame(&mut self)
        ensures
            final(self).frame() == seq![Drawn::Clear],
            final(self).root_size() == old(self).root_size(),
    ;

    fn render_object(&mut self, position: Point, symbol: char)
        ensures
            final(self).frame() == old(self).frame().push((Drawn::Glyph { position, symbol })),
            final(self).root_size() == old(self).root_size(),
    ;

    /// Ends a frame.
    fn after_render_new_frame(&mut self)
        ensures
            final(self).frame() == old(self).frame().push(Drawn::Flush),
            final(self).root_size() == old(self).root_size(),
    ;

    /// The keypress that the raw event `key_state`, once the backend has
    /// delivered it, means to the game.
    fn wait_for_keypress(&mut self, key_state: KeyState) -> (k: KeyboardInput)
        ensures
            k == key_meaning(key_state),
            final(self).frame() == old(self).frame(),
            final(self).root_size() == old(self).root_size(),
    ;

    /// Draws a window with its buffered messages.
    fn attach_window<W: WindowComponent>(&mut self, window: &W)
        ensures
            final(self).frame() == old(self).frame().push(window_drawn(window.model())),
            final(self).root_size() == old(self).root_size(),
    ;
}

/// The renderer for the terminal backend: it records each frame for the
/// backend to carry out.
#[derive(Debug)]
pub struct TcodRenderingComponent {
    pub width: i64,
    pub height: i64,
    pub frame: Vec<DrawCommand>,
    pub input_component: TcodInputComponent,
}

impl TcodRenderingComponent {
    /// Adds `command` to the frame.
    fn record(&mut self, command: DrawCommand)
        ensures
            drawn(final(self).frame@) == drawn(old(self).frame@).push(command@),
            final(self).width == old(self).width,
            final(self).height == old(self).height,
            final(self).input_component == old(self).input_component,
    {
        self.frame.push(command);
        assert(drawn(self.frame@) =~= drawn(old(self).frame@).push(command@));
    }
}

impl RenderingComponent for TcodRenderingComponent {
    open spec fn frame(&self) -> Seq<Drawn> {
        drawn(self.frame@)
    }

    open spec fn root_size(&self) -> (int, int) {
        (self.width as int, self.height as int)
    }

    fn new(bound: Bound) -> (r: TcodRenderingComponent) {
        let r = TcodRenderingComponent {
            width: bound.max.x as i64 + 1,
            height: bound.max.y as i64 + 1,
            frame: Vec::new(),
            input_component: TcodInputComponent::new(),
        };
        assert(drawn(r.frame@) =~= Seq::<Drawn>::empty());
        r
    }

    fn before_render_new_frame(&mut self) {
        self.frame.clear();
        self.record(DrawCommand::Clear);
        assert(drawn(self.frame@) =~= seq![Drawn::Clear]);
    }

    fn render_object(&mut self, position: Point, symbol: char) {
        let command = DrawCommand::glyph(position, symbol);
        self.record(command);
    }

    fn after_render_new_frame(&mut self) {
        self.record(DrawCommand::Flush);
    }

    fn wait_for_keypress(&mut self, key_state: KeyState) -> (k: KeyboardInput) {
        self.input_component.translate_input(key_state)
    }

    fn attach_window<W: WindowComponent>(&mut self, window: &W) {
        let bounds = window.get_bounds();
        let messages = window.get_messages();
        self.record(
            DrawCommand::Window {
                background: window.get_bg_color(),
                lines: messages,
                width: bounds.max.x as i64 + 1,
                height: bounds.max.y as i64 + 1,
                target: bounds.min,
            },
        );
    }
}

} // verus!
