//! Decorator: an object is wrapped in another that has the same interface
//! and adds something of its own before or after handing the call on.
//!
//! A coffee is made; a milk coffee wraps a coffee, is made as the coffee is,
//! and can have milk added.

use crate::transcript::Transcript;
use vstd::prelude::*;

verus! {

/// The sizes of a cup.
pub enum Size {
    S,
    M,
    L,
}

/// A coffee.
pub struct Coffee {
    pub size: Size,
}

/// A coffee with milk: the decorator of [`Coffee`].
pub struct MilkCoffee {
    pub coffee: Coffee,
    pub size: Size,
}

/// Something that can be made to order.
pub trait Order {
    /// The lines that making this puts out.
    spec fn making(&self) -> Seq<Seq<char>>;

    /// Makes this.
    fn make(&self, out: &mut Transcript)
        ensures
            final(out)@ == old(out)@ + self.making(),
    ;
}

/// An order to which milk can be added.
pub trait DecorateOrder: Order {
    /// The lines that making this with milk puts out.
    spec fn adding_milk(&self) -> Seq<Seq<char>>;

    /// Makes this, with milk.
    fn add_milk(&self, out: &mut Transcript)
        ensures
            final(out)@ == old(out)@ + self.adding_milk(),
    ;
}

impl Order for Coffee {
    open spec fn making(&self) -> Seq<Seq<char>> {
        seq!["Making coffee"@]
    }

    fn make(&self, out: &mut Transcript) {
        out.record("Making coffee".to_owned());
    }
}

impl Order for MilkCoffee {
    /// A milk coffee is made as the coffee in it is.
    open spec fn making(&self) -> Seq<Seq<char>> {
        self.coffee.making()
    }

    fn make(&self, out: &mut Transcript) {
        self.coffee.make(out);
    }
}

impl DecorateOrder for MilkCoffee {
    /// First the coffee is made, then the milk is added.
    open spec fn adding_milk(&self) -> Seq<Seq<char>> {
        self.making().push("Adding milk to coffee"@)
    }

    fn add_milk(&self, out: &mut Transcript) {
        self.make(out);
        out.record("Adding milk to coffee".to_owned());
    }
}

/// What [`demo_decorator`] puts out.
pub open spec fn demo_decorator_lines() -> Seq<Seq<char>> {
    seq![
        "Making coffee"@,
        "==================="@,
        "Making coffee"@,
        "Adding milk to coffee"@,
    ]
}

/// Makes a small coffee, then wraps it in a medium milk coffee and adds
/// milk to that.
pub fn demo_decorator(out: &mut Transcript)
    ensures
        final(out)@ == old(out)@ + demo_decorator_lines(),
{
    let coffee = Coffee { size: Size::S };

    coffee.make(out);

    out.record("===================".to_owned());
    let milk_coffee = MilkCoffee { coffee, size: Size::M };

    milk_coffee.add_milk(out);
}

} // verus!
