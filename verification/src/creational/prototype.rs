//! Prototype: new objects are made by copying a finished one and changing
//! what has to differ, not by building each from nothing.
//!
//! Here the prototype is a pen; the shapes are drawn with copies of it.

use crate::text::{append_decimal, append_quoted, decimal, quoted};
use crate::transcript::Transcript;
use vstd::prelude::*;

verus! {

/// A pen, with its colour and the width of its line.
pub struct Pen {
    pub color: String,
    pub width: i64,
}

/// A pen of the colour `color` and the width `width` as it is shown in a
/// line of output.
pub open spec fn pen_shown(color: Seq<char>, width: i64) -> Seq<char> {
    "Pen { color: "@ + quoted(color) + ", width: "@ + decimal(width as int) + " }"@
}

impl Pen {
    /// The pen as it is shown in a line of output.
    pub open spec fn shown(&self) -> Seq<char> {
        pen_shown(self.color@, self.width)
    }

    /// Appends the pen to `out` as it is shown in a line of output.
    pub fn append_to(&self, out: &mut String)
        ensures
            final(out)@ == old(out)@ + self.shown(),
    {
        out.append("Pen { color: ");
        append_quoted(out, self.color.as_str());
        out.append(", width: ");
        append_decimal(out, self.width);
        out.append(" }");
    }
}

/// Makes pens from a pen.
pub trait PenPrototype {
    /// The pen that the copies are made of.
    spec fn prototype(&self) -> Pen;

    /// A copy of the pen.
    fn clone(&self) -> (pen: Pen)
        ensures
            pen == self.prototype(),
    ;

    /// A copy of the pen in the colour `color`.
    fn set_color(&self, color: String) -> (pen: Pen)
        ensures
            pen.color == color,
            pen.width == self.prototype().width,
    ;

    /// A copy of the pen with the width `width`.
    fn set_width(&self, width: i64) -> (pen: Pen)
        ensures
            pen.width == width,
            pen.color == self.prototype().color,
    ;
}

impl PenPrototype for Pen {
    open spec fn prototype(&self) -> Pen {
        *self
    }

    fn clone(&self) -> (pen: Pen) {
        Self { width: self.width, color: self.color.clone() }
    }

    fn set_width(&self, width: i64) -> (pen: Pen) {
        Pen { width, color: self.color.clone() }
    }

    fn set_color(&self, color: String) -> (pen: Pen) {
        Pen { width: self.width, color }
    }
}

/// A circle: its centre and its radius.
pub struct Circle {
    pub x: i64,
    pub y: i64,
    pub r: i64,
}

/// A rectangle: its sides.
pub struct Rectangle {
    pub width: i64,
    pub height: i64,
}

/// Something that a pen can draw.
pub trait Draw {
    /// The line that drawing this with `pen` puts out.
    spec fn drawn_with(&self, pen: Pen) -> Seq<char>;

    /// Draws this with `pen`.
    fn draw(&self, pen: Pen, out: &mut Transcript)
        ensures
            final(out)@ == old(out)@.push(self.drawn_with(pen)),
    ;
}

impl Draw for Circle {
    open spec fn drawn_with(&self, pen: Pen) -> Seq<char> {
        "Draw Circle with pen "@ + pen.shown()
    }

    fn draw(&self, pen: Pen, out: &mut Transcript) {
        let mut line = "Draw Circle with pen ".to_owned();
        pen.append_to(&mut line);
        out.record(line);
    }
}

impl Draw for Rectangle {
    open spec fn drawn_with(&self, pen: Pen) -> Seq<char> {
        "Draw Rectangle with pen "@ + pen.shown()
    }

    fn draw(&self, pen: Pen, out: &mut Transcript) {
        let mut line = "Draw Rectangle with pen ".to_owned();
        pen.append_to(&mut line);
        out.record(line);
    }
}

/// What [`demo_prototype`] puts out: a circle drawn with a green pen of
/// width 2, then a rectangle drawn with a green pen of width 3.
pub open spec fn demo_prototype_lines() -> Seq<Seq<char>> {
    seq![
        "Draw Circle with pen "@ + pen_shown("green"@, 2),
        "Draw Rectangle with pen "@ + pen_shown("green"@, 3),
    ]
}

/// Draws a circle and a rectangle, each with a pen made from one green
/// pen of width 2: for the circle the colour is set again, for the
/// rectangle the width is set to 3.
pub fn demo_prototype(out: &mut Transcript)
    ensures
        final(out)@ == old(out)@ + demo_prototype_lines(),
{
    let pen = Pen { width: 2, color: "green".to_owned() };
    Circle { x: 1, y: 2, r: 3 }.draw(pen.set_color("green".to_owned()), out);
    Rectangle { width: 1, height: 2 }.draw(pen.set_width(3), out);
}

} // verus!
