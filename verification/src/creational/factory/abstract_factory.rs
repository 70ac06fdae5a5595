//! Abstract factory: one interface makes a whole family of related
//! objects, and the client never names their concrete classes.
//!
//! Each theme has a factory; the widgets of one factory go together.

use crate::creational::factory::{ScrollBar, ThemeInfo, Themes, Window};
use vstd::prelude::*;

verus! {

/// Makes the widgets of one theme.
pub trait WidgetFactory {
    /// Whether `window` is the window of this factory's theme.
    spec fn makes_window(&self, window: Window) -> bool;

    /// Whether `scroll_bar` is the scroll bar of this factory's theme.
    spec fn makes_scroll_bar(&self, scroll_bar: ScrollBar) -> bool;

    /// Whether `info` describes this factory's theme.
    spec fn gives_theme_info(&self, info: ThemeInfo) -> bool;

    /// Makes a window.
    fn create_window(&self) -> (window: Window)
        ensures
            self.makes_window(window),
    ;

    /// Makes a scroll bar.
    fn create_scroll_bar(&self) -> (scroll_bar: ScrollBar)
        ensures
            self.makes_scroll_bar(scroll_bar),
    ;

    /// Describes the theme.
    fn get_theme_info(&self) -> (info: ThemeInfo)
        ensures
            self.gives_theme_info(info),
    ;
}

/// The factory of the theme [`Themes::PMWindow`].
pub struct PMWindowWidget {}

impl WidgetFactory for PMWindowWidget {
    open spec fn makes_window(&self, window: Window) -> bool {
        window.is("white"@, "green"@, "PMWindow"@)
    }

    open spec fn makes_scroll_bar(&self, scroll_bar: ScrollBar) -> bool {
        scroll_bar.is(300, 300, "ScrollBar"@)
    }

    open spec fn gives_theme_info(&self, info: ThemeInfo) -> bool {
        info.name@ == "PMWindow Widget"@
    }

    fn create_window(&self) -> (window: Window) {
        Window {
            background: "white".to_owned(),
            text: "green".to_owned(),
            widget_name: "PMWindow".to_owned(),
        }
    }

    fn create_scroll_bar(&self) -> (scroll_bar: ScrollBar) {
        ScrollBar { width: 300, height: 300, widget_name: "ScrollBar".to_owned() }
    }

    fn get_theme_info(&self) -> (info: ThemeInfo) {
        ThemeInfo { name: "PMWindow Widget".to_owned() }
    }
}

/// The factory of the theme [`Themes::Motif`].
pub struct MotifWidget {}

impl WidgetFactory for MotifWidget {
    open spec fn makes_window(&self, window: Window) -> bool {
        window.is("green"@, "white"@, "MotifScollbar"@)
    }

    open spec fn makes_scroll_bar(&self, scroll_bar: ScrollBar) -> bool {
        scroll_bar.is(200, 200, "MotifScollbar"@)
    }

    open spec fn gives_theme_info(&self, info: ThemeInfo) -> bool {
        info.name@ == "Motif Widget"@
    }

    fn create_window(&self) -> (window: Window) {
        Window {
            background: "green".to_owned(),
            text: "white".to_owned(),
            widget_name: "MotifScollbar".to_owned(),
        }
    }

    fn create_scroll_bar(&self) -> (scroll_bar: ScrollBar) {
        ScrollBar { width: 200, height: 200, widget_name: "MotifScollbar".to_owned() }
    }

    fn get_theme_info(&self) -> (info: ThemeInfo) {
        ThemeInfo { name: "Motif Widget".to_owned() }
    }
}

/// The factory of a theme chosen while the program runs.
pub enum AnyWidgetFactory {
    PMWindow(PMWindowWidget),
    Motif(MotifWidget),
}

impl WidgetFactory for AnyWidgetFactory {
    open spec fn makes_window(&self, window: Window) -> bool {
        match self {
            AnyWidgetFactory::PMWindow(factory) => factory.makes_window(window),
            AnyWidgetFactory::Motif(factory) => factory.makes_window(window),
        }
    }

    open spec fn makes_scroll_bar(&self, scroll_bar: ScrollBar) -> bool {
        match self {
            AnyWidgetFactory::PMWindow(factory) => factory.makes_scroll_bar(scroll_bar),
            AnyWidgetFactory::Motif(factory) => factory.makes_scroll_bar(scroll_bar),
        }
    }

    open spec fn gives_theme_info(&self, info: ThemeInfo) -> bool {
        match self {
            AnyWidgetFactory::PMWindow(factory) => factory.gives_theme_info(info),
            AnyWidgetFactory::Motif(factory) => factory.gives_theme_info(info),
        }
    }

    fn create_window(&self) -> (window: Window) {
        match self {
            AnyWidgetFactory::PMWindow(factory) => factory.create_window(),
            AnyWidgetFactory::Motif(factory) => factory.create_window(),
        }
    }

    fn create_scroll_bar(&self) -> (scroll_bar: ScrollBar) {
        match self {
            AnyWidgetFactory::PMWindow(factory) => factory.create_scroll_bar(),
            AnyWidgetFactory::Motif(factory) => factory.create_scroll_bar(),
        }
    }

    fn get_theme_info(&self) -> (info: ThemeInfo) {
        match self {
            AnyWidgetFactory::PMWindow(factory) => factory.get_theme_info(),
            AnyWidgetFactory::Motif(factory) => factory.get_theme_info(),
        }
    }
}

/// The factory of `theme`.
pub fn get_widget_factory(theme: Themes) -> (factory: AnyWidgetFactory)
    ensures
        theme is PMWindow <==> factory is PMWindow,
        theme is Motif <==> factory is Motif,
{
    match theme {
        Themes::PMWindow => AnyWidgetFactory::PMWindow(PMWindowWidget {  }),
        Themes::Motif => AnyWidgetFactory::Motif(MotifWidget {  }),
    }
}

} // verus!
