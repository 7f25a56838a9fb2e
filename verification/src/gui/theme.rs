//! UI theming: the colours and font of every kind of UI element.

use vstd::prelude::*;
use crate::gui::renderer::Color;
use crate::text::str_equal;

verus! {

/// UI theme definition
#[derive(Clone, Copy)]
pub struct Theme {
    pub window_background: Color,
    pub window_border_active: Color,
    pub window_border_inactive: Color,
    pub title_bar_active: Color,
    pub title_bar_inactive: Color,
    pub title_text_active: Color,
    pub title_text_inactive: Color,
    pub desktop_background: Color,
    pub button_normal: Color,
    pub button_hover: Color,
    pub button_active: Color,
    pub button_text: Color,
    pub button_border: Color,
    pub text_normal: Color,
    pub text_disabled: Color,
    pub text_highlight: Color,
    pub control_background: Color,
    pub control_foreground: Color,
    pub control_border: Color,
    pub selection_background: Color,
    pub selection_text: Color,
    pub scrollbar_background: Color,
    pub scrollbar_handle: Color,
    pub font_family: &'static str,
    pub font_size: u16,
}

/// The default dark theme.
pub open spec fn dark_theme() -> Theme {
    Theme {
        window_background: Color { r: 30, g: 30, b: 30, a: 255 },
        window_border_active: Color { r: 0, g: 120, b: 215, a: 255 },
        window_border_inactive: Color { r: 80, g: 80, b: 80, a: 255 },
        title_bar_active: Color { r: 40, g: 40, b: 40, a: 255 },
        title_bar_inactive: Color { r: 30, g: 30, b: 30, a: 255 },
        title_text_active: Color { r: 255, g: 255, b: 255, a: 255 },
        title_text_inactive: Color { r: 200, g: 200, b: 200, a: 255 },
        desktop_background: Color { r: 20, g: 20, b: 20, a: 255 },
        button_normal: Color { r: 60, g: 60, b: 60, a: 255 },
        button_hover: Color { r: 70, g: 70, b: 70, a: 255 },
        button_active: Color { r: 0, g: 120, b: 215, a: 255 },
        button_text: Color { r: 255, g: 255, b: 255, a: 255 },
        button_border: Color { r: 100, g: 100, b: 100, a: 255 },
        text_normal: Color { r: 240, g: 240, b: 240, a: 255 },
        text_disabled: Color { r: 130, g: 130, b: 130, a: 255 },
        text_highlight: Color { r: 0, g: 120, b: 215, a: 255 },
        control_background: Color { r: 40, g: 40, b: 40, a: 255 },
        control_foreground: Color { r: 240, g: 240, b: 240, a: 255 },
        control_border: Color { r: 80, g: 80, b: 80, a: 255 },
        selection_background: Color { r: 0, g: 120, b: 215, a: 255 },
        selection_text: Color { r: 255, g: 255, b: 255, a: 255 },
        scrollbar_background: Color { r: 30, g: 30, b: 30, a: 255 },
        scrollbar_handle: Color { r: 80, g: 80, b: 80, a: 255 },
        font_family: "Roboto",
        font_size: 14,
    }
}

/// The light theme.
pub open spec fn light_theme() -> Theme {
    Theme {
        window_background: Color { r: 240, g: 240, b: 240, a: 255 },
        window_border_active: Color { r: 0, g: 120, b: 215, a: 255 },
        window_border_inactive: Color { r: 180, g: 180, b: 180, a: 255 },
        title_bar_active: Color { r: 220, g: 220, b: 220, a: 255 },
        title_bar_inactive: Color { r: 230, g: 230, b: 230, a: 255 },
        title_text_active: Color { r: 0, g: 0, b: 0, a: 255 },
        title_text_inactive: Color { r: 100, g: 100, b: 100, a: 255 },
        desktop_background: Color { r: 220, g: 220, b: 220, a: 255 },
        button_normal: Color { r: 230, g: 230, b: 230, a: 255 },
        button_hover: Color { r: 210, g: 210, b: 210, a: 255 },
        button_active: Color { r: 0, g: 120, b: 215, a: 255 },
        button_text: Color { r: 0, g: 0, b: 0, a: 255 },
        button_border: Color { r: 180, g: 180, b: 180, a: 255 },
        text_normal: Color { r: 0, g: 0, b: 0, a: 255 },
        text_disabled: Color { r: 150, g: 150, b: 150, a: 255 },
        text_highlight: Color { r: 0, g: 120, b: 215, a: 255 },
        control_background: Color { r: 255, g: 255, b: 255, a: 255 },
        control_foreground: Color { r: 0, g: 0, b: 0, a: 255 },
        control_border: Color { r: 180, g: 180, b: 180, a: 255 },
        selection_background: Color { r: 0, g: 120, b: 215, a: 255 },
        selection_text: Color { r: 255, g: 255, b: 255, a: 255 },
        scrollbar_background: Color { r: 240, g: 240, b: 240, a: 255 },
        scrollbar_handle: Color { r: 180, g: 180, b: 180, a: 255 },
        font_family: "Roboto",
        font_size: 14,
    }
}

/// The dark theme with `accent` on active borders and buttons, highlights
/// and selections.
pub open spec fn gaming_theme(accent: Color) -> Theme {
    Theme {
        window_border_active: accent,
        button_active: accent,
        text_highlight: accent,
        selection_background: accent,
        ..dark_theme()
    }
}

/// The theme that `load` gives for a name.
pub open spec fn theme_named(name: Seq<char>) -> Theme {
    if name == "light"@ {
        light_theme()
    } else if name == "gaming"@ {
        gaming_theme(Color { r: 0, g: 120, b: 215, a: 255 })
    } else {
        dark_theme()
    }
}

impl Default for Theme {
    /// Create the default dark theme
    fn default() -> (t: Self)
        ensures
            t == dark_theme(),
    {
        Self {
            window_background: Color::rgb(30, 30, 30),
            window_border_active: Color::rgb(0, 120, 215),
            window_border_inactive: Color::rgb(80, 80, 80),
            title_bar_active: Color::rgb(40, 40, 40),
            title_bar_inactive: Color::rgb(30, 30, 30),
            title_text_active: Color::rgb(255, 255, 255),
            title_text_inactive: Color::rgb(200, 200, 200),
            desktop_background: Color::rgb(20, 20, 20),
            button_normal: Color::rgb(60, 60, 60),
            button_hover: Color::rgb(70, 70, 70),
            button_active: Color::rgb(0, 120, 215),
            button_text: Color::rgb(255, 255, 255),
            button_border: Color::rgb(100, 100, 100),
            text_normal: Color::rgb(240, 240, 240),
            text_disabled: Color::rgb(130, 130, 130),
            text_highlight: Color::rgb(0, 120, 215),
            control_background: Color::rgb(40, 40, 40),
            control_foreground: Color::rgb(240, 240, 240),
            control_border: Color::rgb(80, 80, 80),
            selection_background: Color::rgb(0, 120, 215),
            selection_text: Color::rgb(255, 255, 255),
            scrollbar_background: Color::rgb(30, 30, 30),
            scrollbar_handle: Color::rgb(80, 80, 80),
            font_family: "Roboto",
            font_size: 14,
        }
    }
}

impl Theme {
    /// Create a light theme
    pub fn light() -> (t: Self)
        ensures
            t == light_theme(),
    {
        Self {
            window_background: Color::rgb(240, 240, 240),
            window_border_active: Color::rgb(0, 120, 215),
            window_border_inactive: Color::rgb(180, 180, 180),
            title_bar_active: Color::rgb(220, 220, 220),
            title_bar_inactive: Color::rgb(230, 230, 230),
            title_text_active: Color::rgb(0, 0, 0),
            title_text_inactive: Color::rgb(100, 100, 100),
            desktop_background: Color::rgb(220, 220, 220),
            button_normal: Color::rgb(230, 230, 230),
            button_hover: Color::rgb(210, 210, 210),
            button_active: Color::rgb(0, 120, 215),
            button_text: Color::rgb(0, 0, 0),
            button_border: Color::rgb(180, 180, 180),
            text_normal: Color::rgb(0, 0, 0),
            text_disabled: Color::rgb(150, 150, 150),
            text_highlight: Color::rgb(0, 120, 215),
            control_background: Color::rgb(255, 255, 255),
            control_foreground: Color::rgb(0, 0, 0),
            control_border: Color::rgb(180, 180, 180),
            selection_background: Color::rgb(0, 120, 215),
            selection_text: Color::rgb(255, 255, 255),
            scrollbar_background: Color::rgb(240, 240, 240),
            scrollbar_handle: Color::rgb(180, 180, 180),
            font_family: "Roboto",
            font_size: 14,
        }
    }

    /// Create a gaming theme with accent color
    pub fn gaming(accent_color: Color) -> (t: Self)
        ensures
            t == gaming_theme(accent_color),
    {
        let mut theme = Self::default();
        theme.window_border_active = accent_color;
        theme.button_active = accent_color;
        theme.text_highlight = accent_color;
        theme.selection_background = accent_color;
        theme
    }

    /// The theme called `theme_name`: "light", "gaming", else the dark one.
    pub fn load(theme_name: &str) -> (t: Self)
        ensures
            t == theme_named(theme_name@),
    {
        if str_equal(theme_name, "light") {
            Self::light()
        } else if str_equal(theme_name, "gaming") {
            Self::gaming(Color::rgb(0, 120, 215))
        } else {
            Self::default()
        }
    }
}

} // verus!
