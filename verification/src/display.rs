//! What is to be drawn, as a list of operations in the order of drawing.
//!
//! The library never draws. Its widgets add operations to a [`DrawList`], and
//! the owner of the display carries them out one after the other. An operation
//! that fails ends the list and its error goes to the caller, unless the
//! operation is marked `best_effort`: then the failure is dropped and the next
//! operation is carried out.

use vstd::prelude::*;
use crate::geometry::{Point, Rectangle, Size};
use crate::style::{CharacterStyle, Image, PrimitiveStyle, TextStyle};

verus! {

/// One thing to draw.
#[derive(Clone, Debug, PartialEq, Eq)]
pub enum DrawCommand {
    /// A rectangle.
    Rectangle { area: Rectangle, style: PrimitiveStyle },
    /// A rectangle whose four corners are rounded alike.
    RoundedRectangle { area: Rectangle, corner_radius: Size, style: PrimitiveStyle },
    /// A text at a position.
    Text { text: String, position: Point, character_style: CharacterStyle, text_style: TextStyle },
    /// A picture at its place.
    Image { image: Image },
}

/// What a [`DrawCommand`] says.
pub enum DrawCommandView {
    Rectangle { area: Rectangle, style: PrimitiveStyle },
    RoundedRectangle { area: Rectangle, corner_radius: Size, style: PrimitiveStyle },
    Text {
        text: Seq<char>,
        position: Point,
        character_style: CharacterStyle,
        text_style: TextStyle,
    },
    Image { image: Image },
}

impl View for DrawCommand {
    type V = DrawCommandView;

    open spec fn view(&self) -> DrawCommandView {
        match *self {
            DrawCommand::Rectangle { area, style } => DrawCommandView::Rectangle { area, style },
            DrawCommand::RoundedRectangle { area, corner_radius, style } => {
                DrawCommandView::RoundedRectangle { area, corner_radius, style }
            },
            DrawCommand::Text { text, position, character_style, text_style } => {
                DrawCommandView::Text { text: text@, position, character_style, text_style }
            },
            DrawCommand::Image { image } => DrawCommandView::Image { image },
        }
    }
}

/// A [`DrawCommand`] and what a failure of it means.
#[derive(Clone, Debug, PartialEq, Eq)]
pub struct DrawOp {
    pub command: DrawCommand,
    /// Whether a failure of this operation is dropped.
    pub best_effort: bool,
}

/// What a [`DrawOp`] says.
pub struct DrawOpView {
    pub command: DrawCommandView,
    pub best_effort: bool,
}

impl View for DrawOp {
    type V = DrawOpView;

    open spec fn view(&self) -> DrawOpView {
        DrawOpView { command: self.command@, best_effort: self.best_effort }
    }
}

/// An operation whose failure ends the list.
pub open spec fn required(command: DrawCommandView) -> DrawOpView {
    DrawOpView { command, best_effort: false }
}

/// An operation whose failure is dropped.
pub open spec fn optional(command: DrawCommandView) -> DrawOpView {
    DrawOpView { command, best_effort: true }
}

/// The operations recorded for a display, first to last.
#[derive(Clone, Debug, PartialEq, Eq)]
pub struct DrawList {
    ops: Vec<DrawOp>,
}

impl View for DrawList {
    type V = Seq<DrawOpView>;

    closed spec fn view(&self) -> Seq<DrawOpView> {
        Seq::new(self.ops@.len(), |i: int| self.ops@[i]@)
    }
}

impl DrawList {
    /// A list of no operation.
    pub fn new() -> (list: DrawList)
        ensures
            list@ == Seq::<DrawOpView>::empty(),
    {
        DrawList { ops: Vec::new() }
    }

    /// Adds `command` as an operation whose failure ends the list.
    pub fn push(&mut self, command: DrawCommand)
        ensures
            final(self)@ == old(self)@.push(required(command@)),
    {
        self.ops.push(DrawOp { command, best_effort: false });
    }

    /// Adds `command` as an operation whose failure is dropped.
    pub fn push_best_effort(&mut self, command: DrawCommand)
        ensures
            final(self)@ == old(self)@.push(optional(command@)),
    {
        self.ops.push(DrawOp { command, best_effort: true });
    }

    /// The number of operations.
    pub fn len(&self) -> (n: usize)
        ensures
            n == self@.len(),
    {
        self.ops.len()
    }

    /// The operation at `index`.
    pub fn get(&self, index: usize) -> (op: Option<&DrawOp>)
        ensures
            index < self@.len() ==> op.is_some() && op.unwrap()@ == self@[index as int],
            index >= self@.len() ==> op.is_none(),
    {
        if index < self.ops.len() {
            Some(&self.ops[index])
        } else {
            None
        }
    }

    /// Takes the operations out, first to last, and leaves the list empty.
    pub fn take(&mut self) -> (ops: Vec<DrawOp>)
        ensures
            final(self)@ == Seq::<DrawOpView>::empty(),
            ops@.len() == old(self)@.len(),
            forall|i: int| 0 <= i < ops@.len() ==> (#[trigger] ops@[i])@ == old(self)@[i],
    {
        let mut ops: Vec<DrawOp> = Vec::new();
        std::mem::swap(&mut self.ops, &mut ops);
        ops
    }
}

} // verus!
