//! The source contract and the values that pass through it.

use vstd::prelude::*;

use crate::text::push_char;

verus! {

/// Why a source has nothing to show this tick.
#[derive(Debug)]
pub struct BlockError {
    message: String,
}

impl View for BlockError {
    type V = Seq<char>;

    closed spec fn view(&self) -> Seq<char> {
        self.message@
    }
}

impl BlockError {
    pub fn new(msg: String) -> (r: Self)
        ensures
            r@ == msg@,
    {
        BlockError { message: msg }
    }

    /// The text that describes the failure.
    pub fn message(&self) -> (r: &String)
        ensures
            r@ == self@,
    {
        &self.message
    }
}

/// A status source: sampled once per tick, told of clicks on its slot.
pub trait Block {
    fn current_state(&mut self) -> Result<BlockState, BlockError>;

    fn handle_click(&self, event: ClickEvent);
}

/// The text a source renders for one tick.
#[derive(Debug)]
pub struct BlockState {
    text: String,
}

impl View for BlockState {
    type V = Seq<char>;

    closed spec fn view(&self) -> Seq<char> {
        self.text@
    }
}

impl BlockState {
    pub fn new(text: String) -> (r: BlockState)
        ensures
            r@ == text@,
    {
        BlockState { text }
    }

    pub fn text(&self) -> (r: &String)
        ensures
            r@ == self@,
    {
        &self.text
    }
}

#[derive(Debug, Copy, Clone, PartialEq, Eq, Structural)]
pub enum MouseButton {
    Left,
    Middle,
    Right,
    ScrollUp,
    ScrollDown,
}

/// Glyphs of the icon font that the bar renders.
#[derive(Debug, Copy, Clone, PartialEq, Eq, Structural)]
pub enum Icon {
    LightningBolt,
    VolumeUp,
    VolumeDown,
    VolumeOff,
    VolumeMute,
    Globe,
    Music,
    Play,
    Pause,
    HDD,
    Calendar,
}

impl Icon {
    pub open spec fn spec_glyph(self) -> char {
        match self {
            Icon::LightningBolt => '\u{f0e7}',
            Icon::VolumeUp => '\u{f028}',
            Icon::VolumeDown => '\u{f027}',
            Icon::VolumeOff => '\u{f026}',
            Icon::VolumeMute => '\u{f6a9}',
            Icon::Globe => '\u{f0ac}',
            Icon::Music => '\u{f001}',
            Icon::Play => '\u{f04b}',
            Icon::Pause => '\u{f04c}',
            Icon::HDD => '\u{f0a0}',
            Icon::Calendar => '\u{f133}',
        }
    }

    /// The character that shows this icon.
    pub fn glyph(&self) -> (c: char)
        ensures
            c == self.spec_glyph(),
    {
        match self {
            Icon::LightningBolt => '\u{f0e7}',
            Icon::VolumeUp => '\u{f028}',
            Icon::VolumeDown => '\u{f027}',
            Icon::VolumeOff => '\u{f026}',
            Icon::VolumeMute => '\u{f6a9}',
            Icon::Globe => '\u{f0ac}',
            Icon::Music => '\u{f001}',
            Icon::Play => '\u{f04b}',
            Icon::Pause => '\u{f04c}',
            Icon::HDD => '\u{f0a0}',
            Icon::Calendar => '\u{f133}',
        }
    }

    /// The icon as a one-character string.
    pub fn to_string(&self) -> (r: String)
        ensures
            r@ == seq![self.spec_glyph()],
    {
        let mut r = String::new();
        push_char(&mut r, self.glyph());
        assert(r@ =~= seq![self.spec_glyph()]);
        r
    }

    /// The text of a slot: this icon, a space, then `text`.
    pub open spec fn spec_label(self, text: Seq<char>) -> Seq<char> {
        seq![self.spec_glyph(), ' '] + text
    }

    /// Puts this icon and a space in front of `text`.
    pub fn label(&self, text: &str) -> (r: String)
        ensures
            r@ == self.spec_label(text@),
    {
        let mut r = String::new();
        push_char(&mut r, self.glyph());
        push_char(&mut r, ' ');
        r.append(text);
        assert(r@ =~= self.spec_label(text@));
        r
    }
}

#[derive(Debug, Copy, Clone, PartialEq, Eq, Structural)]
pub struct Position(pub u32, pub u32);

#[derive(Debug, Copy, Clone, PartialEq, Eq, Structural)]
pub struct Dimensions(pub u32, pub u32);

/// A click that the bar reports on one slot.
#[derive(Debug, Copy, Clone)]
pub struct ClickEvent {
    button: MouseButton,
    position: Position,
    absolute_position: Position,
    block_dimensions: Dimensions,
    instance: usize,
}

impl ClickEvent {
    pub closed spec fn spec_button(self) -> MouseButton {
        self.button
    }

    /// Where the click fell, relative to the block.
    pub closed spec fn spec_position(self) -> Position {
        self.position
    }

    /// Where the click fell on the screen.
    pub closed spec fn spec_absolute_position(self) -> Position {
        self.absolute_position
    }

    pub closed spec fn spec_block_dimensions(self) -> Dimensions {
        self.block_dimensions
    }

    pub closed spec fn spec_instance(self) -> usize {
        self.instance
    }

    /// A click at `position` relative to the block; its screen position
    /// starts out as the origin (see `with_absolute_position`).
    pub fn new(
        button: MouseButton,
        position: Position,
        block_dimensions: Dimensions,
        instance: usize,
    ) -> (r: Self)
        ensures
            r.spec_button() == button,
            r.spec_position() == position,
            r.spec_absolute_position() == Position(0, 0),
            r.spec_block_dimensions() == block_dimensions,
            r.spec_instance() == instance,
    {
        ClickEvent {
            button,
            position,
            absolute_position: Position(0, 0),
            block_dimensions,
            instance,
        }
    }

    /// The same click, at screen position `absolute`.
    pub fn with_absolute_position(self, absolute: Position) -> (r: Self)
        ensures
            r.spec_button() == self.spec_button(),
            r.spec_position() == self.spec_position(),
            r.spec_absolute_position() == absolute,
            r.spec_block_dimensions() == self.spec_block_dimensions(),
            r.spec_instance() == self.spec_instance(),
    {
        ClickEvent { absolute_position: absolute, ..self }
    }

    pub fn instance(&self) -> (r: usize)
        ensures
            r == self.spec_instance(),
    {
        self.instance
    }

    pub fn button(&self) -> (r: MouseButton)
        ensures
            r == self.spec_button(),
    {
        self.button
    }

    pub fn position(&self) -> (r: Position)
        ensures
            r == self.spec_position(),
    {
        self.position
    }

    pub fn absolute_position(&self) -> (r: Position)
        ensures
            r == self.spec_absolute_position(),
    {
        self.absolute_position
    }

    pub fn block_dimensions(&self) -> (r: Dimensions)
        ensures
            r == self.spec_block_dimensions(),
    {
        self.block_dimensions
    }
}

} // verus!
