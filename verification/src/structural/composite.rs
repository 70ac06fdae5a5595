//! Composite: single objects and groups of objects are treated alike, so
//! that a group can hold groups.
//!
//! A desktop holds graphics and is a graphic itself: drawing it draws what
//! it holds, in order.

use crate::text::{append_decimal, decimal};
use crate::transcript::Transcript;
use vstd::prelude::*;

verus! {

/// Something that can be drawn.
pub trait Graphic {
    /// The lines that drawing this puts out.
    spec fn drawing(&self) -> Seq<Seq<char>>;

    /// Draws this.
    fn draw(&self, out: &mut Transcript)
        ensures
            final(out)@ == old(out)@ + self.drawing(),
    ;
}

/// A circle of a given radius.
#[derive(Debug)]
pub struct Circle {
    pub radius: i64,
}

/// A rectangle.
#[derive(Debug)]
pub struct Rectangle {
    pub x: i64,
    pub y: i64,
}

/// A line.
#[derive(Debug)]
pub struct Line {
    pub x: i64,
    pub y: i64,
}

/// Any graphic that a desktop can hold: one of the shapes, or a desktop.
pub enum AnyGraphic {
    Circle(Circle),
    Rectangle(Rectangle),
    Line(Line),
    Desktop(Desktop),
}

/// A group of graphics.
pub struct Desktop {
    pub graphics: Vec<AnyGraphic>,
}

/// The lines that drawing `graphics` one after the other puts out.
pub open spec fn drawing_of(graphics: Seq<AnyGraphic>) -> Seq<Seq<char>>
    decreases graphics,
{
    if graphics.len() == 0 {
        Seq::empty()
    } else {
        drawing_of(graphics.drop_last()) + graphics.last().drawing()
    }
}

impl Graphic for Circle {
    open spec fn drawing(&self) -> Seq<Seq<char>> {
        seq!["Draw Circle("@ + decimal(self.radius as int) + ")"@]
    }

    fn draw(&self, out: &mut Transcript) {
        let mut line = "Draw Circle(".to_owned();
        append_decimal(&mut line, self.radius);
        line.append(")");
        out.record(line);
    }
}

impl Graphic for Rectangle {
    open spec fn drawing(&self) -> Seq<Seq<char>> {
        seq![
            "draw Rectangle("@ + decimal(self.x as int) + ","@ + decimal(self.y as int) + ")"@,
        ]
    }

    fn draw(&self, out: &mut Transcript) {
        let mut line = "draw Rectangle(".to_owned();
        append_decimal(&mut line, self.x);
        line.append(",");
        append_decimal(&mut line, self.y);
        line.append(")");
        out.record(line);
    }
}

impl Graphic for Line {
    open spec fn drawing(&self) -> Seq<Seq<char>> {
        seq!["Draw Line("@ + decimal(self.x as int) + ","@ + decimal(self.y as int) + ")"@]
    }

    fn draw(&self, out: &mut Transcript) {
        let mut line = "Draw Line(".to_owned();
        append_decimal(&mut line, self.x);
        line.append(",");
        append_decimal(&mut line, self.y);
        line.append(")");
        out.record(line);
    }
}

impl Graphic for AnyGraphic {
    open spec fn drawing(&self) -> Seq<Seq<char>>
        decreases self,
    {
        match self {
            AnyGraphic::Circle(circle) => circle.drawing(),
            AnyGraphic::Rectangle(rectangle) => rectangle.drawing(),
            AnyGraphic::Line(line) => line.drawing(),
            AnyGraphic::Desktop(desktop) => desktop.drawing(),
        }
    }

    fn draw(&self, out: &mut Transcript)
        decreases self,
    {
        match self {
            AnyGraphic::Circle(circle) => circle.draw(out),
            AnyGraphic::Rectangle(rectangle) => rectangle.draw(out),
            AnyGraphic::Line(line) => line.draw(out),
            AnyGraphic::Desktop(desktop) => desktop.draw(out),
        }
    }
}

impl Graphic for Desktop {
    open spec fn drawing(&self) -> Seq<Seq<char>>
        decreases self,
    {
        drawing_of(self.graphics@)
    }

    fn draw(&self, out: &mut Transcript)
        decreases self,
    {
        let mut i: usize = 0;
        while i < self.graphics.len()
            invariant
                i <= self.graphics.len(),
                out@ == old(out)@ + drawing_of(self.graphics@.take(i as int)),
            decreases self.graphics.len() - i,
        {
            assert(self.graphics@.take(i + 1).drop_last() =~= self.graphics@.take(i as int));
            self.graphics[i].draw(out);
            i += 1;
        }
        assert(self.graphics@.take(i as int) =~= self.graphics@);
    }
}

impl Desktop {
    /// A desktop that holds nothing.
    pub fn new() -> (desktop: Desktop)
        ensures
            desktop.graphics@ == Seq::<AnyGraphic>::empty(),
    {
        Desktop { graphics: Vec::new() }
    }

    /// Takes the graphic at position `idx` out of the desktop, and gives
    /// the desktop up with it.
    pub fn remove(self, idx: i64) -> (removed: bool)
        requires
            0 <= idx < self.graphics@.len(),
        ensures
            removed,
    {
        let mut graphics = self.graphics;
        graphics.remove(idx as usize);
        true
    }

    /// The graphic at position `idx`, if there is one.
    pub fn get(&self, idx: usize) -> (graphic: Option<&AnyGraphic>)
        ensures
            idx < self.graphics@.len() ==> graphic == Some(&self.graphics@[idx as int]),
            idx >= self.graphics@.len() ==> graphic is None,
    {
        if idx < self.graphics.len() {
            Some(&self.graphics[idx])
        } else {
            None
        }
    }

    /// Puts `graphic` behind the graphics that the desktop holds and
    /// returns its position, as far as an `i64` can hold it.
    pub fn add(&mut self, graphic: AnyGraphic) -> (idx: i64)
        ensures
            final(self).graphics@ == old(self).graphics@.push(graphic),
            old(self).graphics@.len() <= i64::MAX ==> idx == old(self).graphics@.len(),
    {
        self.graphics.push(graphic);
        #[verifier::truncate]
        ((self.graphics.len() - 1) as i64)
    }
}

/// The line that opens the showing of the graphic at position `idx`.
pub open spec fn opening(label: Seq<char>, idx: int) -> Seq<char> {
    label + " idx::"@ + decimal(idx) + " >>>>>>"@
}

/// The line that closes the showing of the graphic at position `idx`.
pub open spec fn closing(label: Seq<char>, idx: int) -> Seq<char> {
    label + " idx::"@ + decimal(idx) + " <<<<<"@
}

/// Draws the graphic at position `idx` of `desktop` between an opening and
/// a closing line.
fn show(desktop: &Desktop, label: &str, shown: i64, idx: usize, out: &mut Transcript)
    requires
        idx < desktop.graphics@.len(),
    ensures
        final(out)@ == old(out)@ + seq![opening(label@, shown as int)]
            + desktop.graphics@[idx as int].drawing() + seq![closing(label@, shown as int)],
{
    let graphic = desktop.get(idx);
    let mut first = label.to_owned();
    first.append(" idx::");
    append_decimal(&mut first, shown);
    first.append(" >>>>>>");
    out.record(first);
    graphic.unwrap().draw(out);
    let mut last = label.to_owned();
    last.append(" idx::");
    append_decimal(&mut last, shown);
    last.append(" <<<<<");
    out.record(last);
}

/// What [`create_desktop`] puts out. The third graphic is announced as a
/// rectangle, and what is drawn in its place is the circle before it.
pub open spec fn create_desktop_lines() -> Seq<Seq<char>> {
    let line = Line { x: 10, y: 20 };
    let circle = Circle { radius: 4 };
    let rectangle = Rectangle { x: 12, y: 24 };
    seq![opening("Rectangle"@, 0)] + line.drawing() + seq![closing("Rectangle"@, 0)]
        + seq![opening("Circle"@, 1)] + circle.drawing() + seq![closing("Circle"@, 1)]
        + seq![opening("Rectangle"@, 2)] + circle.drawing() + seq![closing("Rectangle"@, 2)]
        + line.drawing() + circle.drawing() + rectangle.drawing()
}

/// Puts a line, a circle and a rectangle on a desktop, showing each as it
/// is added, and draws the desktop.
pub fn create_desktop(out: &mut Transcript)
    ensures
        final(out)@ == old(out)@ + create_desktop_lines(),
{
    let mut desk = Desktop::new();

    let line_idx = desk.add(AnyGraphic::Line(Line { x: 10, y: 20 }));
    show(&desk, "Rectangle", line_idx, line_idx as usize, out);

    let cir_idx = desk.add(AnyGraphic::Circle(Circle { radius: 4 }));
    show(&desk, "Circle", cir_idx, cir_idx as usize, out);

    let rec_idx = desk.add(AnyGraphic::Rectangle(Rectangle { x: 12, y: 24 }));
    show(&desk, "Rectangle", rec_idx, cir_idx as usize, out);

    desk.draw(out);
    proof {
        let graphics = desk.graphics@;
        reveal_with_fuel(drawing_of, 4);
        assert(drawing_of(graphics) =~= graphics[0].drawing() + graphics[1].drawing()
            + graphics[2].drawing());
    }
}

} // verus!
