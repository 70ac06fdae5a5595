//! Factories for the widgets of a window system that comes in several
//! themes: the widgets themselves, and two ways of making them.

pub mod abstract_factory;
pub mod factory_method;

use vstd::prelude::*;

verus! {

/// A window, with its colours.
#[derive(Debug)]
pub struct Window {
    pub background: String,
    pub text: String,
    pub widget_name: String,
}

/// A scroll bar, with its size.
#[derive(Debug)]
pub struct ScrollBar {
    pub width: i64,
    pub height: i64,
    pub widget_name: String,
}

/// What a theme says of itself.
#[derive(Debug)]
pub struct ThemeInfo {
    pub name: String,
}

/// The themes on offer.
#[derive(Debug, Clone, Copy)]
pub enum Themes {
    PMWindow,
    Motif,
}

impl Window {
    /// Whether the window has these colours and this name.
    pub open spec fn is(
        &self,
        background: Seq<char>,
        text: Seq<char>,
        widget_name: Seq<char>,
    ) -> bool {
        &&& self.background@ == background
        &&& self.text@ == text
        &&& self.widget_name@ == widget_name
    }
}

impl ScrollBar {
    /// Whether the scroll bar has this size and this name.
    pub open spec fn is(&self, width: i64, height: i64, widget_name: Seq<char>) -> bool {
        &&& self.width == width
        &&& self.height == height
        &&& self.widget_name@ == widget_name
    }
}

impl Clone for Window {
    fn clone(&self) -> (copy: Self)
        ensures
            copy == *self,
    {
        Window {
            background: self.background.clone(),
            text: self.text.clone(),
            widget_name: self.widget_name.clone(),
        }
    }
}

impl Clone for ScrollBar {
    fn clone(&self) -> (copy: Self)
        ensures
            copy == *self,
    {
        ScrollBar {
            width: self.width,
            height: self.height,
            widget_name: self.widget_name.clone(),
        }
    }
}

impl Clone for ThemeInfo {
    fn clone(&self) -> (copy: Self)
        ensures
            copy == *self,
    {
        ThemeInfo { name: self.name.clone() }
    }
}

impl Default for Window {
    /// A window without colours and without a name.
    fn default() -> (window: Self)
        ensures
            window.is(Seq::empty(), Seq::empty(), Seq::empty()),
    {
        Window { background: String::new(), text: String::new(), widget_name: String::new() }
    }
}

impl Default for ScrollBar {
    /// A scroll bar of no size and without a name.
    fn default() -> (scroll_bar: Self)
        ensures
            scroll_bar.is(0, 0, Seq::empty()),
    {
        ScrollBar { width: 0, height: 0, widget_name: String::new() }
    }
}

} // verus!
