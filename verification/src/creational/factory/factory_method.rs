//! Factory method: a type says how an object of it is made, and the
//! factories leave the making to the type.

use crate::creational::factory::{ScrollBar, Window};
use vstd::prelude::*;

verus! {

/// A type that makes objects. Unless the type says otherwise, the object
/// it makes is the default one.
pub trait WidgetFactoryMethod {
    type Object;

    /// Makes an object.
    fn create() -> (object: Box<Self::Object>) where Self::Object: Default
        default_ensures
            call_ensures(<Self::Object as Default>::default, (), *object),
    {
        Box::new(Default::default())
    }
}

/// Makes a window and a scroll bar, each as its own type makes it.
pub trait WidgetFactory {
    /// Makes a scroll bar.
    fn create_scroll_bar(&self) -> (scroll_bar: Box<ScrollBar>)
        ensures
            scroll_bar.is(0, 0, "ScrollBar"@),
    ;

    /// Makes a window.
    fn create_window(&self) -> (window: Box<Window>)
        ensures
            window.is(Seq::empty(), Seq::empty(), "Window"@),
    ;
}

impl WidgetFactoryMethod for Window {
    type Object = Window;

    /// The default window, named "Window".
    fn create() -> (window: Box<Window>)
        ensures
            window.is(Seq::empty(), Seq::empty(), "Window"@),
    {
        let blank = Window::default();
        let widget = Window {
            widget_name: "Window".to_owned(),
            background: blank.background,
            text: blank.text,
        };
        Box::new(widget)
    }
}

impl WidgetFactoryMethod for ScrollBar {
    type Object = ScrollBar;

    /// The default scroll bar, named "ScrollBar".
    fn create() -> (scroll_bar: Box<ScrollBar>)
        ensures
            scroll_bar.is(0, 0, "ScrollBar"@),
    {
        let blank = ScrollBar::default();
        let widget = ScrollBar {
            widget_name: "ScrollBar".to_owned(),
            width: blank.width,
            height: blank.height,
        };
        Box::new(widget)
    }
}

/// The factory of the theme `PMWindow`.
pub struct PMWidgetFactory {}

impl WidgetFactory for PMWidgetFactory {
    fn create_scroll_bar(&self) -> (scroll_bar: Box<ScrollBar>) {
        ScrollBar::create()
    }

    fn create_window(&self) -> (window: Box<Window>) {
        Window::create()
    }
}

/// The factory of the theme `Motif`.
pub struct MotifWidgetFactory {}

impl WidgetFactory for MotifWidgetFactory {
    fn create_scroll_bar(&self) -> (scroll_bar: Box<ScrollBar>) {
        ScrollBar::create()
    }

    fn create_window(&self) -> (window: Box<Window>) {
        Window::create()
    }
}

} // verus!
