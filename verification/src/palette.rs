//! Per-theme color palettes.
//!
//! Two fixed palettes exist, one for each [`ModernTheme`]. A palette is a
//! record of color groups — buttons, inputs, container, toggler, application
//! chrome — each holding a handful of named colors given as human-readable
//! RGBA tuples (`0..=255` channels, `0..=100` alpha). The getter methods hand
//! the colors out normalized, as exact [`Color`] rationals.

use vstd::prelude::*;

use crate::color::{from_rgba, spec_from_rgba, Color};

verus! {

/// A human-readable RGBA tuple: channels in `0..=255`, alpha in `0..=100`.
#[derive(Clone, Copy, PartialEq, Eq, Structural, Debug)]
pub struct Rgba {
    pub r: u8,
    pub g: u8,
    pub b: u8,
    pub a: u8,
}

impl Rgba {
    /// The alpha stays within its human-readable range.
    pub open spec fn wf(self) -> bool {
        self.a <= 100
    }

    /// The normalized color this tuple denotes.
    pub open spec fn resolved(self) -> Color {
        spec_from_rgba(self.r, self.g, self.b, self.a)
    }
}

/// The two available themes, each selecting one fixed palette.
#[derive(Clone, Copy, PartialEq, Eq, Structural, Debug)]
pub enum ModernTheme {
    Dark,
    Light,
}

impl Default for ModernTheme {
    /// The application starts on the dark theme.
    fn default() -> (t: Self)
        ensures
            t == ModernTheme::Dark,
    {
        ModernTheme::Dark
    }
}

/// Button colors of one theme.
#[derive(Clone, Copy, PartialEq, Eq, Structural, Debug)]
pub struct ButtonsPalette {
    pub text: Rgba,
    pub principal: Rgba,
    pub secondary: Rgba,
    pub tag: Rgba,
}

impl ButtonsPalette {
    pub open spec fn wf(self) -> bool {
        self.text.wf() && self.principal.wf() && self.secondary.wf() && self.tag.wf()
    }

    /// The color of button labels, normalized.
    pub fn label(&self) -> (c: Color)
        requires
            self.wf(),
        ensures
            c == self.text.resolved(),
    {
        from_rgba(self.text.r, self.text.g, self.text.b, self.text.a)
    }

    /// The background of principal buttons, normalized.
    pub fn primary(&self) -> (c: Color)
        requires
            self.wf(),
        ensures
            c == self.principal.resolved(),
    {
        from_rgba(self.principal.r, self.principal.g, self.principal.b, self.principal.a)
    }

    /// The background of secondary buttons, normalized.
    pub fn secondary(&self) -> (c: Color)
        requires
            self.wf(),
        ensures
            c == self.secondary.resolved(),
    {
        from_rgba(self.secondary.r, self.secondary.g, self.secondary.b, self.secondary.a)
    }

    /// The color of button text, normalized.
    pub fn text(&self) -> (c: Color)
        requires
            self.wf(),
        ensures
            c == self.text.resolved(),
    {
        from_rgba(self.text.r, self.text.g, self.text.b, self.text.a)
    }

    /// The fallback background of tag buttons, normalized.
    pub fn tag(&self) -> (c: Color)
        requires
            self.wf(),
        ensures
            c == self.tag.resolved(),
    {
        from_rgba(self.tag.r, self.tag.g, self.tag.b, self.tag.a)
    }
}

/// Text-input colors of one theme.
#[derive(Clone, Copy, PartialEq, Eq, Structural, Debug)]
pub struct InputPalette {
    pub background: Rgba,
    pub border_color: Rgba,
    pub icon_color: Rgba,
    pub placeholder_text: Rgba,
    pub text: Rgba,
    pub disabled_color: Rgba,
    pub disabled: Rgba,
}

impl InputPalette {
    pub open spec fn wf(self) -> bool {
        &&& self.background.wf()
        &&& self.border_color.wf()
        &&& self.icon_color.wf()
        &&& self.placeholder_text.wf()
        &&& self.text.wf()
        &&& self.disabled_color.wf()
        &&& self.disabled.wf()
    }

    /// The input background, normalized.
    pub fn background(&self) -> (c: Color)
        requires
            self.wf(),
        ensures
            c == self.background.resolved(),
    {
        from_rgba(self.background.r, self.background.g, self.background.b, self.background.a)
    }

    /// The input border color, normalized.
    pub fn border_color(&self) -> (c: Color)
        requires
            self.wf(),
        ensures
            c == self.border_color.resolved(),
    {
        from_rgba(self.border_color.r, self.border_color.g, self.border_color.b, self.border_color.a)
    }

    /// The input icon color, normalized.
    pub fn icon_color(&self) -> (c: Color)
        requires
            self.wf(),
        ensures
            c == self.icon_color.resolved(),
    {
        from_rgba(self.icon_color.r, self.icon_color.g, self.icon_color.b, self.icon_color.a)
    }

    /// The placeholder text color, normalized.
    pub fn placeholder_text(&self) -> (c: Color)
        requires
            self.wf(),
        ensures
            c == self.placeholder_text.resolved(),
    {
        from_rgba(
            self.placeholder_text.r,
            self.placeholder_text.g,
            self.placeholder_text.b,
            self.placeholder_text.a,
        )
    }

    /// The typed-value text color, normalized.
    pub fn text(&self) -> (c: Color)
        requires
            self.wf(),
        ensures
            c == self.text.resolved(),
    {
        from_rgba(self.text.r, self.text.g, self.text.b, self.text.a)
    }

    /// The disabled-value text color, normalized.
    pub fn disabled_color(&self) -> (c: Color)
        requires
            self.wf(),
        ensures
            c == self.disabled_color.resolved(),
    {
        from_rgba(
            self.disabled_color.r,
            self.disabled_color.g,
            self.disabled_color.b,
            self.disabled_color.a,
        )
    }

    /// The disabled-input accent color, normalized.
    pub fn disabled(&self) -> (c: Color)
        requires
            self.wf(),
        ensures
            c == self.disabled.resolved(),
    {
        from_rgba(self.disabled.r, self.disabled.g, self.disabled.b, self.disabled.a)
    }
}

/// Application chrome colors of one theme.
#[derive(Clone, Copy, PartialEq, Eq, Structural, Debug)]
pub struct ApplicationPalette {
    pub background: Rgba,
    pub text: Rgba,
}

impl ApplicationPalette {
    pub open spec fn wf(self) -> bool {
        self.background.wf() && self.text.wf()
    }

    /// The window background, normalized.
    pub fn background(&self) -> (c: Color)
        requires
            self.wf(),
        ensures
            c == self.background.resolved(),
    {
        from_rgba(self.background.r, self.background.g, self.background.b, self.background.a)
    }

    /// The default text color, normalized.
    pub fn text(&self) -> (c: Color)
        requires
            self.wf(),
        ensures
            c == self.text.resolved(),
    {
        from_rgba(self.text.r, self.text.g, self.text.b, self.text.a)
    }
}

/// Container colors and border properties of one theme.
#[derive(Clone, Copy, PartialEq, Eq, Structural, Debug)]
pub struct ContainerPalette {
    pub text: Rgba,
    pub border_radius: u32,
    pub border_width: u32,
    pub border_color: Option<Rgba>,
    pub background: Option<Rgba>,
}

impl ContainerPalette {
    pub open spec fn wf(self) -> bool {
        &&& self.text.wf()
        &&& (self.border_color matches Some(c) ==> c.wf())
        &&& (self.background matches Some(c) ==> c.wf())
    }

    /// The container text color, normalized.
    pub fn text(&self) -> (c: Color)
        requires
            self.wf(),
        ensures
            c == self.text.resolved(),
    {
        from_rgba(self.text.r, self.text.g, self.text.b, self.text.a)
    }

    /// The container border radius.
    pub fn border_radius(&self) -> (r: u32)
        ensures
            r == self.border_radius,
    {
        self.border_radius
    }

    /// The container border width.
    pub fn border_width(&self) -> (w: u32)
        ensures
            w == self.border_width,
    {
        self.border_width
    }

    /// The container border color, normalized, where one is set.
    pub fn border_color(&self) -> (c: Option<Color>)
        requires
            self.wf(),
        ensures
            self.border_color matches Some(raw) ==> c == Some(raw.resolved()),
            self.border_color is None ==> c is None,
    {
        if let Some(raw) = self.border_color {
            return Some(from_rgba(raw.r, raw.g, raw.b, raw.a));
        }
        None
    }

    /// The container background color, normalized, where one is set.
    pub fn background(&self) -> (c: Option<Color>)
        requires
            self.wf(),
        ensures
            self.background matches Some(raw) ==> c == Some(raw.resolved()),
            self.background is None ==> c is None,
    {
        if let Some(raw) = self.background {
            return Some(from_rgba(raw.r, raw.g, raw.b, raw.a));
        }
        None
    }
}

/// Toggler colors of one theme.
#[derive(Clone, Copy, PartialEq, Eq, Structural, Debug)]
pub struct TogglerPalette {
    pub background: Rgba,
    pub foreground: Rgba,
}

impl TogglerPalette {
    pub open spec fn wf(self) -> bool {
        self.background.wf() && self.foreground.wf()
    }

    /// The toggler track color, normalized.
    pub fn background(&self) -> (c: Color)
        requires
            self.wf(),
        ensures
            c == self.background.resolved(),
    {
        from_rgba(self.background.r, self.background.g, self.background.b, self.background.a)
    }

    /// The toggler knob color, normalized.
    pub fn foreground(&self) -> (c: Color)
        requires
            self.wf(),
        ensures
            c == self.foreground.resolved(),
    {
        from_rgba(self.foreground.r, self.foreground.g, self.foreground.b, self.foreground.a)
    }
}

/// The full palette of one theme: every color group together.
#[derive(Clone, Copy, PartialEq, Eq, Structural, Debug)]
pub struct ModernPalette {
    pub buttons: ButtonsPalette,
    pub inputs: InputPalette,
    pub container: ContainerPalette,
    pub toggler: TogglerPalette,
    pub app: ApplicationPalette,
}

impl ModernPalette {
    pub open spec fn wf(self) -> bool {
        &&& self.buttons.wf()
        &&& self.inputs.wf()
        &&& self.container.wf()
        &&& self.toggler.wf()
        &&& self.app.wf()
    }
}

/// The fixed dark palette.
pub open spec fn spec_dark_palette() -> ModernPalette {
    ModernPalette {
        buttons: ButtonsPalette {
            text: Rgba { r: 255, g: 255, b: 255, a: 100 },
            principal: Rgba { r: 253, g: 213, b: 193, a: 100 },
            secondary: Rgba { r: 82, g: 89, b: 96, a: 100 },
            tag: Rgba { r: 82, g: 89, b: 96, a: 100 },
        },
        inputs: InputPalette {
            background: Rgba { r: 39, g: 38, b: 47, a: 100 },
            border_color: Rgba { r: 60, g: 60, b: 60, a: 30 },
            icon_color: Rgba { r: 90, g: 90, b: 90, a: 100 },
            placeholder_text: Rgba { r: 100, g: 100, b: 100, a: 60 },
            text: Rgba { r: 233, g: 233, b: 233, a: 100 },
            disabled_color: Rgba { r: 60, g: 60, b: 60, a: 60 },
            disabled: Rgba { r: 60, g: 60, b: 60, a: 60 },
        },
        container: ContainerPalette {
            text: Rgba { r: 90, g: 90, b: 90, a: 100 },
            border_radius: 6,
            border_width: 0,
            border_color: None,
            background: Some(Rgba { r: 60, g: 60, b: 60, a: 30 }),
        },
        toggler: TogglerPalette {
            background: Rgba { r: 33, g: 35, b: 37, a: 100 },
            foreground: Rgba { r: 60, g: 60, b: 60, a: 100 },
        },
        app: ApplicationPalette {
            background: Rgba { r: 31, g: 30, b: 37, a: 100 },
            text: Rgba { r: 250, g: 250, b: 242, a: 100 },
        },
    }
}

/// The fixed light palette.
pub open spec fn spec_light_palette() -> ModernPalette {
    ModernPalette {
        buttons: ButtonsPalette {
            text: Rgba { r: 255, g: 255, b: 255, a: 100 },
            principal: Rgba { r: 51, g: 88, b: 219, a: 100 },
            secondary: Rgba { r: 82, g: 89, b: 96, a: 100 },
            tag: Rgba { r: 51, g: 245, b: 106, a: 100 },
        },
        inputs: InputPalette {
            background: Rgba { r: 250, g: 250, b: 242, a: 100 },
            border_color: Rgba { r: 60, g: 60, b: 60, a: 30 },
            icon_color: Rgba { r: 90, g: 90, b: 90, a: 100 },
            placeholder_text: Rgba { r: 60, g: 60, b: 60, a: 60 },
            text: Rgba { r: 90, g: 90, b: 90, a: 100 },
            disabled_color: Rgba { r: 60, g: 60, b: 60, a: 60 },
            disabled: Rgba { r: 60, g: 60, b: 60, a: 60 },
        },
        container: ContainerPalette {
            text: Rgba { r: 90, g: 90, b: 90, a: 100 },
            border_radius: 6,
            border_width: 0,
            border_color: None,
            background: Some(Rgba { r: 60, g: 60, b: 60, a: 30 }),
        },
        toggler: TogglerPalette {
            background: Rgba { r: 250, g: 250, b: 250, a: 100 },
            foreground: Rgba { r: 60, g: 60, b: 60, a: 30 },
        },
        app: ApplicationPalette {
            background: Rgba { r: 250, g: 250, b: 242, a: 100 },
            text: Rgba { r: 33, g: 35, b: 37, a: 100 },
        },
    }
}

/// The palette a theme selects.
pub open spec fn spec_palette(t: ModernTheme) -> ModernPalette {
    match t {
        ModernTheme::Dark => spec_dark_palette(),
        ModernTheme::Light => spec_light_palette(),
    }
}

impl ModernTheme {
    /// Looks the theme's palette up: the fixed dark or light table.
    pub fn palette(&self) -> (p: ModernPalette)
        ensures
            p == spec_palette(*self),
            p.wf(),
    {
        match self {
            ModernTheme::Dark => ModernPalette {
                buttons: ButtonsPalette {
                    text: Rgba { r: 255, g: 255, b: 255, a: 100 },
                    principal: Rgba { r: 253, g: 213, b: 193, a: 100 },
                    secondary: Rgba { r: 82, g: 89, b: 96, a: 100 },
                    tag: Rgba { r: 82, g: 89, b: 96, a: 100 },
                },
                inputs: InputPalette {
                    background: Rgba { r: 39, g: 38, b: 47, a: 100 },
                    border_color: Rgba { r: 60, g: 60, b: 60, a: 30 },
                    icon_color: Rgba { r: 90, g: 90, b: 90, a: 100 },
                    placeholder_text: Rgba { r: 100, g: 100, b: 100, a: 60 },
                    text: Rgba { r: 233, g: 233, b: 233, a: 100 },
                    disabled_color: Rgba { r: 60, g: 60, b: 60, a: 60 },
                    disabled: Rgba { r: 60, g: 60, b: 60, a: 60 },
                },
                container: ContainerPalette {
                    text: Rgba { r: 90, g: 90, b: 90, a: 100 },
                    border_radius: 6,
                    border_width: 0,
                    border_color: None,
                    background: Some(Rgba { r: 60, g: 60, b: 60, a: 30 }),
                },
                toggler: TogglerPalette {
                    background: Rgba { r: 33, g: 35, b: 37, a: 100 },
                    foreground: Rgba { r: 60, g: 60, b: 60, a: 100 },
                },
                app: ApplicationPalette {
                    background: Rgba { r: 31, g: 30, b: 37, a: 100 },
                    text: Rgba { r: 250, g: 250, b: 242, a: 100 },
                },
            },
            ModernTheme::Light => ModernPalette {
                buttons: ButtonsPalette {
                    text: Rgba { r: 255, g: 255, b: 255, a: 100 },
                    principal: Rgba { r: 51, g: 88, b: 219, a: 100 },
                    secondary: Rgba { r: 82, g: 89, b: 96, a: 100 },
                    tag: Rgba { r: 51, g: 245, b: 106, a: 100 },
                },
                inputs: InputPalette {
                    background: Rgba { r: 250, g: 250, b: 242, a: 100 },
                    border_color: Rgba { r: 60, g: 60, b: 60, a: 30 },
                    icon_color: Rgba { r: 90, g: 90, b: 90, a: 100 },
                    placeholder_text: Rgba { r: 60, g: 60, b: 60, a: 60 },
                    text: Rgba { r: 90, g: 90, b: 90, a: 100 },
                    disabled_color: Rgba { r: 60, g: 60, b: 60, a: 60 },
                    disabled: Rgba { r: 60, g: 60, b: 60, a: 60 },
                },
                container: ContainerPalette {
                    text: Rgba { r: 90, g: 90, b: 90, a: 100 },
                    border_radius: 6,
                    border_width: 0,
                    border_color: None,
                    background: Some(Rgba { r: 60, g: 60, b: 60, a: 30 }),
                },
                toggler: TogglerPalette {
                    background: Rgba { r: 250, g: 250, b: 250, a: 100 },
                    foreground: Rgba { r: 60, g: 60, b: 60, a: 30 },
                },
                app: ApplicationPalette {
                    background: Rgba { r: 250, g: 250, b: 242, a: 100 },
                    text: Rgba { r: 33, g: 35, b: 37, a: 100 },
                },
            },
        }
    }
}

} // verus!
