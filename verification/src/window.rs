//! The four text windows around the map: their place on screen and their
//! bounded message buffers, most recent message first.

use vstd::prelude::*;
use vstd::string::*;
use crate::util::Bound;

verus! {

/// A background colour, by its red, green and blue parts.
#[derive(Clone, Copy, Debug, PartialEq, Eq, Structural)]
pub struct Color {
    pub r: u8,
    pub g: u8,
    pub b: u8,
}

impl Color {
    pub fn new(r: u8, g: u8, b: u8) -> (c: Color)
        ensures
            c == (Color { r, g, b }),
    {
        Color { r, g, b }
    }
}

/// What a window is, mathematically: where it sits, its colour, the lines it
/// shows (most recent first) and how many it keeps.
pub struct WindowView {
    pub bounds: Bound,
    pub background_color: Color,
    pub lines: Seq<Seq<char>>,
    pub max_messages: nat,
}

/// `lines` with `text` put in front, cut to the `max` most recent.
pub open spec fn buffered(lines: Seq<Seq<char>>, max: nat, text: Seq<char>) -> Seq<Seq<char>> {
    if lines.len() + 1 <= max {
        seq![text] + lines
    } else {
        (seq![text] + lines).subrange(0, max as int)
    }
}

/// `max` blank lines.
pub open spec fn blank(max: nat) -> Seq<Seq<char>> {
    Seq::new(max, |i: int| Seq::<char>::empty())
}

impl WindowView {
    /// A window right after its creation: nothing buffered yet.
    pub open spec fn fresh(bounds: Bound, background_color: Color, max_messages: nat) -> WindowView {
        WindowView { bounds, background_color, lines: Seq::empty(), max_messages }
    }

    pub open spec fn buffer_message(self, text: Seq<char>) -> WindowView {
        WindowView { lines: buffered(self.lines, self.max_messages, text), ..self }
    }

    pub open spec fn flush_buffer(self) -> WindowView {
        WindowView { lines: blank(self.max_messages), ..self }
    }
}

/// The lines that a vector of messages shows.
pub open spec fn lines_of(messages: Seq<String>) -> Seq<Seq<char>> {
    Seq::new(messages.len(), |i: int| messages[i]@)
}

/// Puts `text` in front of `messages` and keeps the `max` most recent.
fn buffer_into(messages: &mut Vec<String>, max: usize, text: &str)
    ensures
        lines_of(final(messages)@) == buffered(lines_of(old(messages)@), max as nat, text@),
{
    let message = String::from_str(text);
    messages.insert(0, message);
    messages.truncate(max);
    assert(lines_of(messages@) =~= buffered(lines_of(old(messages)@), max as nat, text@));
}

/// Replaces `messages` by `max` blank lines.
fn flush_into(messages: &mut Vec<String>, max: usize)
    ensures
        lines_of(final(messages)@) == blank(max as nat),
{
    let ghost before = messages@;
    let mut i: usize = 0;
    while i < max
        invariant
            i <= max,
            messages@.len() == before.len() + i,
            forall|k: int| 0 <= k < i ==> (#[trigger] messages@[k])@ == Seq::<char>::empty(),
        decreases max - i,
    {
        messages.insert(0, String::new());
        i = i + 1;
    }
    messages.truncate(max);
    assert(lines_of(messages@) =~= blank(max as nat));
}

/// A copy of `messages`, line for line.
fn copy_messages(messages: &Vec<String>) -> (r: Vec<String>)
    ensures
        lines_of(r@) == lines_of(messages@),
{
    let mut r: Vec<String> = Vec::new();
    let mut i: usize = 0;
    while i < messages.len()
        invariant
            i <= messages.len(),
            r@.len() == i,
            forall|k: int| 0 <= k < i ==> (#[trigger] r@[k])@ == messages@[k]@,
        decreases messages.len() - i,
    {
        r.push(messages[i].clone());
        i = i + 1;
    }
    assert(lines_of(r@) =~= lines_of(messages@));
    r
}

/// A window of the screen with a message buffer.
pub trait WindowComponent: Sized {
    /// The window as a mathematical value.
    spec fn model(&self) -> WindowView;

    /// The colour every window of this kind is created with.
    spec fn initial_color() -> Color;

    /// The number of messages every window of this kind keeps.
    spec fn initial_max_messages() -> nat;

    fn new(bounds: Bound) -> (w: Self)
        ensures
            w.model() == WindowView::fresh(
                bounds,
                Self::initial_color(),
                Self::initial_max_messages(),
            ),
    ;

    fn get_bounds(&self) -> (b: Bound)
        ensures
            b == self.model().bounds,
    ;

    fn get_bg_color(&self) -> (c: Color)
        ensures
            c == self.model().background_color,
    ;

    /// The buffered messages, most recent first.
    fn get_messages(&self) -> (m: Vec<String>)
        ensures
            lines_of(m@) == self.model().lines,
    ;

    fn get_max_messages(&self) -> (n: usize)
        ensures
            n == self.model().max_messages,
    ;

    /// Puts `text` in front of the buffer and drops what exceeds the
    /// window's maximum.
    fn buffer_message(&mut self, text: &str)
        ensures
            final(self).model() == old(self).model().buffer_message(text@),
    ;

    /// Replaces the buffer by blank lines, as many as the window keeps.
    fn flush_buffer(&mut self)
        ensures
            final(self).model() == old(self).model().flush_buffer(),
    ;
}

/// The statistics window, right of the map.
#[derive(Debug)]
pub struct TcodStatsWindowComponent {
    pub background_color: Color,
    bounds: Bound,
    messages: Vec<String>,
    max_messages: usize,
}

impl WindowComponent for TcodStatsWindowComponent {
    closed spec fn model(&self) -> WindowView {
        WindowView {
            bounds: self.bounds,
            background_color: self.background_color,
            lines: lines_of(self.messages@),
            max_messages: self.max_messages as nat,
        }
    }

    open spec fn initial_color() -> Color {
        Color { r: 0, g: 0, b: 0 }
    }

    open spec fn initial_max_messages() -> nat {
        10
    }

    fn new(bounds: Bound) -> (w: TcodStatsWindowComponent) {
        let w = TcodStatsWindowComponent {
            background_color: Color::new(0u8, 0u8, 0u8),
            bounds: bounds,
            messages: Vec::new(),
            max_messages: 10,
        };
        assert(lines_of(w.messages@) =~= Seq::empty());
        w
    }

    fn get_bounds(&self) -> (b: Bound) {
        self.bounds
    }

    fn get_bg_color(&self) -> (c: Color) {
        self.background_color
    }

    fn get_messages(&self) -> (m: Vec<String>) {
        copy_messages(&self.messages)
    }

    fn get_max_messages(&self) -> (n: usize) {
        self.max_messages
    }

    fn buffer_message(&mut self, text: &str) {
        buffer_into(&mut self.messages, self.max_messages, text);
    }

    fn flush_buffer(&mut self) {
        flush_into(&mut self.messages, self.max_messages);
    }
}

/// The input window, where the game prompts the player.
#[derive(Debug)]
pub struct TcodInputWindowComponent {
    pub background_color: Color,
    bounds: Bound,
    messages: Vec<String>,
    max_messages: usize,
}

impl WindowComponent for TcodInputWindowComponent {
    closed spec fn model(&self) -> WindowView {
        WindowView {
            bounds: self.bounds,
            background_color: self.background_color,
            lines: lines_of(self.messages@),
            max_messages: self.max_messages as nat,
        }
    }

    open spec fn initial_color() -> Color {
        Color { r: 0, g: 0, b: 0 }
    }

    open spec fn initial_max_messages() -> nat {
        2
    }

    fn new(bounds: Bound) -> (w: TcodInputWindowComponent) {
        let w = TcodInputWindowComponent {
            background_color: Color::new(0u8, 0u8, 0u8),
            bounds: bounds,
            messages: Vec::new(),
            max_messages: 2,
        };
        assert(lines_of(w.messages@) =~= Seq::empty());
        w
    }

    fn get_bounds(&self) -> (b: Bound) {
        self.bounds
    }

    fn get_bg_color(&self) -> (c: Color) {
        self.background_color
    }

    fn get_messages(&self) -> (m: Vec<String>) {
        copy_messages(&self.messages)
    }

    fn get_max_messages(&self) -> (n: usize) {
        self.max_messages
    }

    fn buffer_message(&mut self, text: &str) {
        buffer_into(&mut self.messages, self.max_messages, text);
    }

    fn flush_buffer(&mut self) {
        flush_into(&mut self.messages, self.max_messages);
    }
}

/// The window the map is drawn in.
#[derive(Debug)]
pub struct TcodMapWindowComponent {
    pub background_color: Color,
    bounds: Bound,
    messages: Vec<String>,
    max_messages: usize,
}

impl WindowComponent for TcodMapWindowComponent {
    closed spec fn model(&self) -> WindowView {
        WindowView {
            bounds: self.bounds,
            background_color: self.background_color,
            lines: lines_of(self.messages@),
            max_messages: self.max_messages as nat,
        }
    }

    open spec fn initial_color() -> Color {
        Color { r: 0, g: 0, b: 0 }
    }

    open spec fn initial_max_messages() -> nat {
        10
    }

    fn new(bounds: Bound) -> (w: TcodMapWindowComponent) {
        let w = TcodMapWindowComponent {
            background_color: Color::new(0u8, 0u8, 0u8),
            bounds: bounds,
            messages: Vec::new(),
            max_messages: 10,
        };
        assert(lines_of(w.messages@) =~= Seq::empty());
        w
    }

    fn get_bounds(&self) -> (b: Bound) {
        self.bounds
    }

    fn get_bg_color(&self) -> (c: Color) {
        self.background_color
    }

    fn get_messages(&self) -> (m: Vec<String>) {
        copy_messages(&self.messages)
    }

    fn get_max_messages(&self) -> (n: usize) {
        self.max_messages
    }

    fn buffer_message(&mut self, text: &str) {
        buffer_into(&mut self.messages, self.max_messages, text);
    }

    fn flush_buffer(&mut self) {
        flush_into(&mut self.messages, self.max_messages);
    }
}

/// The message window, where the game reports what happened.
#[derive(Debug)]
pub struct TcodMessagesWindowComponent {
    pub background_color: Color,
    bounds: Bound,
    messages: Vec<String>,
    max_messages: usize,
}

impl WindowComponent for TcodMessagesWindowComponent {
    closed spec fn model(&self) -> WindowView {
        WindowView {
            bounds: self.bounds,
            background_color: self.background_color,
            lines: lines_of(self.messages@),
            max_messages: self.max_messages as nat,
        }
    }

    open spec fn initial_color() -> Color {
        Color { r: 0, g: 0, b: 0 }
    }

    open spec fn initial_max_messages() -> nat {
        10
    }

    fn new(bounds: Bound) -> (w: TcodMessagesWindowComponent) {
        let w = TcodMessagesWindowComponent {
            background_color: Color::new(0u8, 0u8, 0u8),
            bounds: bounds,
            messages: Vec::new(),
            max_messages: 10,
        };
        assert(lines_of(w.messages@) =~= Seq::empty());
        w
    }

    fn get_bounds(&self) -> (b: Bound) {
        self.bounds
    }

    fn get_bg_color(&self) -> (c: Color) {
        self.background_color
    }

    fn get_messages(&self) -> (m: Vec<String>) {
        copy_messages(&self.messages)
    }

    fn get_max_messages(&self) -> (n: usize) {
        self.max_messages
    }

    fn buffer_message(&mut self, text: &str) {
        buffer_into(&mut self.messages, self.max_messages, text);
    }

    fn flush_buffer(&mut self) {
        flush_into(&mut self.messages, self.max_messages);
    }
}

/// The four windows of the screen.
#[derive(Debug)]
pub struct Windows {
    pub stats: TcodStatsWindowComponent,
    pub map: TcodMapWindowComponent,
    pub input: TcodInputWindowComponent,
    pub messages: TcodMessagesWindowComponent,
}

/// The four windows as mathematical values.
pub struct WindowsView {
    pub stats: WindowView,
    pub map: WindowView,
    pub input: WindowView,
    pub messages: WindowView,
}

impl WindowsView {
    /// These windows after `text` went to the message window.
    pub open spec fn report(self, text: Seq<char>) -> WindowsView {
        WindowsView { messages: self.messages.buffer_message(text), ..self }
    }

    /// These windows after the input window was blanked and shows `text`.
    pub open spec fn prompt(self, text: Seq<char>) -> WindowsView {
        WindowsView { input: self.input.flush_buffer().buffer_message(text), ..self }
    }
}

impl View for Windows {
    type V = WindowsView;

    open spec fn view(&self) -> WindowsView {
        WindowsView {
            stats: self.stats.model(),
            map: self.map.model(),
            input: self.input.model(),
            messages: self.messages.model(),
        }
    }
}

impl Windows {
    /// The four windows, each created on its rectangle.
    pub fn new(stats: Bound, map: Bound, input: Bound, messages: Bound) -> (w: Windows)
        ensures
            w@.stats == WindowView::fresh(stats, Color { r: 0, g: 0, b: 0 }, 10),
            w@.map == WindowView::fresh(map, Color { r: 0, g: 0, b: 0 }, 10),
            w@.input == WindowView::fresh(input, Color { r: 0, g: 0, b: 0 }, 2),
            w@.messages == WindowView::fresh(messages, Color { r: 0, g: 0, b: 0 }, 10),
    {
        Windows {
            stats: TcodStatsWindowComponent::new(stats),
            map: TcodMapWindowComponent::new(map),
            input: TcodInputWindowComponent::new(input),
            messages: TcodMessagesWindowComponent::new(messages),
        }
    }

    /// The rectangle of the map window.
    pub fn get_map_bounds(&self) -> (b: Bound)
        ensures
            b == self@.map.bounds,
    {
        self.map.get_bounds()
    }
}

} // verus!
