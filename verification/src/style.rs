//! The style resolver: pure functions mapping a (theme, semantic variant)
//! pair to the concrete visual appearance of each widget kind.
//!
//! Every resolver is total over its closed variant set and proved equal to a
//! spec-level table. The policies worth naming: buttons are pill-shaped
//! (radius 100) in every variant; a `Tag` button takes the caller-supplied
//! RGB color and bypasses the theme palette; hovering promotes a `Secondary`
//! button to the `Principal` look and leaves every other variant unchanged;
//! pressing darkens the active background and text by the fixed 0.7 factor.

use vstd::prelude::*;

use crate::color::{
    darken, from_rgb, from_rgba, spec_darken, spec_from_rgb, spec_from_rgba, spec_transparent,
    transparent, Color,
};
use crate::palette::{spec_palette, ModernTheme};

verus! {

/// The fallback border radius: only disabled text inputs use it.
pub const BORDER_RADIUS: u32 = 6;

/// The default border width.
pub const BORDER_WIDTH: u32 = 0;

/// Semantic button variants. `Tag` carries a caller-supplied RGB triple that
/// is used directly, bypassing the theme palette.
#[derive(Clone, Copy, PartialEq, Eq, Structural, Debug)]
pub enum ModernButton {
    Principal,
    Secondary,
    Text,
    Tag(u8, u8, u8),
}

impl Default for ModernButton {
    /// The default button look is the principal one.
    fn default() -> (s: Self)
        ensures
            s == ModernButton::Principal,
    {
        ModernButton::Principal
    }
}

/// Semantic container variants.
#[derive(Clone, Copy, PartialEq, Eq, Structural, Debug)]
pub enum ModernContainer {
    Default,
    Historial,
    Input,
    Line,
}

impl Default for ModernContainer {
    /// The default container carries no decoration.
    fn default() -> (s: Self)
        ensures
            s == ModernContainer::Default,
    {
        ModernContainer::Default
    }
}

/// Text color variants: defer to the ambient color, or override it with a
/// caller-supplied RGB triple (treated as fully opaque).
#[derive(Clone, Copy, PartialEq, Eq, Structural, Debug)]
pub enum ModernColor {
    Default,
    Custom(u8, u8, u8),
}

impl Default for ModernColor {
    /// Text defers to the ambient color by default.
    fn default() -> (s: Self)
        ensures
            s == ModernColor::Default,
    {
        ModernColor::Default
    }
}

/// The resolved look of a button in one state.
#[derive(Clone, Copy, PartialEq, Eq, Structural, Debug)]
pub struct ButtonAppearance {
    pub background: Option<Color>,
    pub border_radius: u32,
    pub border_width: u32,
    pub border_color: Color,
    pub text_color: Color,
}

/// The resolved look of a text fragment.
#[derive(Clone, Copy, PartialEq, Eq, Structural, Debug)]
pub struct TextAppearance {
    pub color: Option<Color>,
}

/// The resolved application chrome.
#[derive(Clone, Copy, PartialEq, Eq, Structural, Debug)]
pub struct ApplicationAppearance {
    pub background_color: Color,
    pub text_color: Color,
}

/// The resolved look of a container.
#[derive(Clone, Copy, PartialEq, Eq, Structural, Debug)]
pub struct ContainerAppearance {
    pub text_color: Option<Color>,
    pub background: Option<Color>,
    pub border_radius: u32,
    pub border_width: u32,
    pub border_color: Color,
}

/// The resolved look of a toggler.
#[derive(Clone, Copy, PartialEq, Eq, Structural, Debug)]
pub struct TogglerAppearance {
    pub background: Color,
    pub background_border: Option<Color>,
    pub foreground: Color,
    pub foreground_border: Option<Color>,
}

/// The resolved look of a text input.
#[derive(Clone, Copy, PartialEq, Eq, Structural, Debug)]
pub struct TextInputAppearance {
    pub background: Color,
    pub border_radius: u32,
    pub border_width: u32,
    pub border_color: Color,
    pub icon_color: Color,
}

/// The resolved look of a rule (divider): fixed width, radius, and a
/// percentage fill of the available length.
#[derive(Clone, Copy, PartialEq, Eq, Structural, Debug)]
pub struct RuleAppearance {
    pub color: Color,
    pub width: u32,
    pub radius: u32,
    pub fill_percent: u32,
}

/// The resolved look of a scrollbar's scroller (the draggable thumb).
#[derive(Clone, Copy, PartialEq, Eq, Structural, Debug)]
pub struct Scroller {
    pub color: Color,
    pub border_radius: u32,
    pub border_width: u32,
    pub border_color: Color,
}

/// The resolved look of a scrollbar.
#[derive(Clone, Copy, PartialEq, Eq, Structural, Debug)]
pub struct Scrollbar {
    pub background: Option<Color>,
    pub border_radius: u32,
    pub border_width: u32,
    pub border_color: Color,
    pub scroller: Scroller,
}

/// The resolved look of a button at rest. Every variant is pill-shaped
/// (radius 100); `Tag` takes the supplied RGB triple as background, every
/// other variant draws on the theme palette.
pub open spec fn spec_button_active(t: ModernTheme, s: ModernButton) -> ButtonAppearance {
    match s {
        ModernButton::Principal => ButtonAppearance {
            background: Some(spec_palette(t).buttons.principal.resolved()),
            border_radius: 100,
            border_width: BORDER_WIDTH,
            border_color: spec_transparent(),
            text_color: spec_from_rgba(255, 110, 1, 100),
        },
        ModernButton::Secondary => ButtonAppearance {
            background: Some(spec_palette(t).buttons.secondary.resolved()),
            border_radius: 100,
            border_width: BORDER_WIDTH,
            border_color: spec_transparent(),
            text_color: spec_palette(t).buttons.text.resolved(),
        },
        ModernButton::Tag(r, g, b) => ButtonAppearance {
            background: Some(spec_from_rgb(r, g, b)),
            border_radius: 100,
            border_width: 0,
            border_color: spec_transparent(),
            text_color: spec_palette(t).buttons.text.resolved(),
        },
        ModernButton::Text => ButtonAppearance {
            background: Some(spec_transparent()),
            border_radius: 100,
            border_width: BORDER_WIDTH,
            border_color: spec_transparent(),
            text_color: spec_palette(t).buttons.text.resolved(),
        },
    }
}

/// The variant whose rest look a hovered button takes: hovering promotes a
/// `Secondary` button to the `Principal` look and changes nothing else.
pub open spec fn spec_hover_promotion(s: ModernButton) -> ModernButton {
    match s {
        ModernButton::Secondary => ModernButton::Principal,
        _ => s,
    }
}

/// The resolved look of a hovered button.
pub open spec fn spec_button_hovered(t: ModernTheme, s: ModernButton) -> ButtonAppearance {
    spec_button_active(t, spec_hover_promotion(s))
}

/// A button appearance with background and text darkened by the fixed 0.7
/// factor; borders and radius are kept.
pub open spec fn spec_darken_appearance(a: ButtonAppearance) -> ButtonAppearance {
    ButtonAppearance {
        background: match a.background {
            Some(c) => Some(spec_darken(c)),
            None => None,
        },
        text_color: spec_darken(a.text_color),
        ..a
    }
}

/// The resolved look of a pressed button: the hovered look with background
/// and text darkened.
pub open spec fn spec_button_pressed(t: ModernTheme, s: ModernButton) -> ButtonAppearance {
    spec_darken_appearance(spec_button_hovered(t, s))
}

/// The resolved look of a container. Only the `Default` variant has no
/// background; the input pill uses radius 100, the panels radius 35.
pub open spec fn spec_container_appearance(
    t: ModernTheme,
    s: ModernContainer,
) -> ContainerAppearance {
    match s {
        ModernContainer::Default => ContainerAppearance {
            text_color: None,
            background: None,
            border_radius: 0,
            border_width: 0,
            border_color: spec_transparent(),
        },
        ModernContainer::Input => ContainerAppearance {
            text_color: None,
            background: Some(spec_palette(t).inputs.background.resolved()),
            border_radius: 100,
            border_width: 0,
            border_color: spec_transparent(),
        },
        ModernContainer::Historial => ContainerAppearance {
            text_color: None,
            background: Some(spec_palette(t).inputs.background.resolved()),
            border_radius: 35,
            border_width: 0,
            border_color: spec_transparent(),
        },
        ModernContainer::Line => ContainerAppearance {
            text_color: None,
            background: Some(spec_palette(t).inputs.placeholder_text.resolved()),
            border_radius: 35,
            border_width: 0,
            border_color: spec_transparent(),
        },
    }
}

/// The resolved look of a text fragment: `Default` defers to the ambient
/// color, `Custom` overrides it with the supplied RGB triple, fully opaque.
pub open spec fn spec_text_appearance(s: ModernColor) -> TextAppearance {
    match s {
        ModernColor::Default => TextAppearance { color: None },
        ModernColor::Custom(r, g, b) => TextAppearance {
            color: Some(spec_from_rgba(r, g, b, 100)),
        },
    }
}

/// The resolved application chrome of a theme.
pub open spec fn spec_application_appearance(t: ModernTheme) -> ApplicationAppearance {
    ApplicationAppearance {
        background_color: spec_palette(t).app.background.resolved(),
        text_color: spec_palette(t).app.text.resolved(),
    }
}

/// The resolved look of a toggler: track and knob from the theme palette, no
/// borders. Active and hovered togglers render identically (an observed
/// quirk of the design, kept deliberately), and the toggle position does not
/// change the colors either.
pub open spec fn spec_toggler_appearance(t: ModernTheme) -> TogglerAppearance {
    TogglerAppearance {
        background: spec_palette(t).toggler.background.resolved(),
        background_border: None,
        foreground: spec_palette(t).toggler.foreground.resolved(),
        foreground_border: None,
    }
}

/// The resolved look of an enabled text input: a borderless pill. Active and
/// focused inputs render identically.
pub open spec fn spec_text_input_enabled(t: ModernTheme) -> TextInputAppearance {
    TextInputAppearance {
        background: spec_palette(t).inputs.background.resolved(),
        border_radius: 100,
        border_width: 0,
        border_color: spec_palette(t).inputs.border_color.resolved(),
        icon_color: spec_palette(t).inputs.icon_color.resolved(),
    }
}

/// The resolved look of a disabled text input: the small border radius and a
/// visible border width are its only differences from the enabled look.
pub open spec fn spec_text_input_disabled(t: ModernTheme) -> TextInputAppearance {
    TextInputAppearance {
        background: spec_palette(t).inputs.background.resolved(),
        border_radius: BORDER_RADIUS,
        border_width: 2,
        border_color: spec_palette(t).inputs.border_color.resolved(),
        icon_color: spec_palette(t).inputs.icon_color.resolved(),
    }
}

/// The resolved look of a rule (divider): fixed width 2, radius 90, and a
/// 20%-length fill.
pub open spec fn spec_rule_appearance(t: ModernTheme) -> RuleAppearance {
    RuleAppearance {
        color: spec_palette(t).inputs.placeholder_text.resolved(),
        width: 2,
        radius: 90,
        fill_percent: 20,
    }
}

/// The resolved look of a scrollbar at rest: secondary-button color as
/// track, placeholder color as thumb.
pub open spec fn spec_scrollable_active(t: ModernTheme) -> Scrollbar {
    Scrollbar {
        background: Some(spec_palette(t).buttons.secondary.resolved()),
        border_radius: 90,
        border_width: 2,
        border_color: spec_transparent(),
        scroller: Scroller {
            color: spec_palette(t).inputs.placeholder_text.resolved(),
            border_radius: 90,
            border_width: 2,
            border_color: spec_transparent(),
        },
    }
}

/// The resolved look of a hovered scrollbar: placeholder color as track,
/// principal-button color as thumb — the track and thumb roles swap color
/// families on hover, a deliberate affordance.
pub open spec fn spec_scrollable_hovered(t: ModernTheme) -> Scrollbar {
    Scrollbar {
        background: Some(spec_palette(t).inputs.placeholder_text.resolved()),
        border_radius: 90,
        border_width: 2,
        border_color: spec_transparent(),
        scroller: Scroller {
            color: spec_palette(t).buttons.principal.resolved(),
            border_radius: 90,
            border_width: 2,
            border_color: spec_transparent(),
        },
    }
}

impl ModernTheme {
    /// Resolves the rest look of a button.
    pub fn button_active(&self, style: &ModernButton) -> (a: ButtonAppearance)
        ensures
            a == spec_button_active(*self, *style),
    {
        let palette = self.palette();
        match style {
            ModernButton::Principal => ButtonAppearance {
                background: Some(palette.buttons.primary()),
                border_radius: 100,
                border_width: BORDER_WIDTH,
                border_color: transparent(),
                text_color: from_rgba(255, 110, 1, 100),
            },
            ModernButton::Secondary => ButtonAppearance {
                background: Some(palette.buttons.secondary()),
                border_radius: 100,
                border_width: BORDER_WIDTH,
                border_color: transparent(),
                text_color: palette.buttons.label(),
            },
            ModernButton::Tag(r, g, b) => ButtonAppearance {
                background: Some(from_rgb(*r, *g, *b)),
                border_radius: 100,
                border_width: 0,
                border_color: transparent(),
                text_color: palette.buttons.label(),
            },
            ModernButton::Text => ButtonAppearance {
                background: Some(transparent()),
                border_radius: 100,
                border_width: BORDER_WIDTH,
                border_color: transparent(),
                text_color: palette.buttons.label(),
            },
        }
    }

    /// Resolves the hovered look of a button: a `Secondary` button takes the
    /// `Principal` rest look, every other variant keeps its own.
    pub fn button_hovered(&self, style: &ModernButton) -> (a: ButtonAppearance)
        ensures
            a == spec_button_hovered(*self, *style),
    {
        match style {
            ModernButton::Secondary => self.button_active(&ModernButton::Principal),
            _ => self.button_active(style),
        }
    }

    /// Resolves the pressed look of a button: the hovered look with
    /// background and text darkened by the fixed 0.7 factor.
    pub fn button_pressed(&self, style: &ModernButton) -> (a: ButtonAppearance)
        ensures
            a == spec_button_pressed(*self, *style),
    {
        let active = self.button_hovered(style);
        let background = match active.background {
            Some(c) => Some(darken(c)),
            None => None,
        };
        ButtonAppearance {
            background,
            text_color: darken(active.text_color),
            ..active
        }
    }

    /// Resolves the look of a container.
    pub fn container_appearance(&self, style: &ModernContainer) -> (a: ContainerAppearance)
        ensures
            a == spec_container_appearance(*self, *style),
    {
        let palette = self.palette();
        match style {
            ModernContainer::Default => ContainerAppearance {
                text_color: None,
                background: None,
                border_radius: 0,
                border_width: 0,
                border_color: transparent(),
            },
            ModernContainer::Input => ContainerAppearance {
                text_color: None,
                background: Some(palette.inputs.background()),
                border_radius: 100,
                border_width: 0,
                border_color: transparent(),
            },
            ModernContainer::Historial => ContainerAppearance {
                text_color: None,
                background: Some(palette.inputs.background()),
                border_radius: 35,
                border_width: 0,
                border_color: transparent(),
            },
            ModernContainer::Line => ContainerAppearance {
                text_color: None,
                background: Some(palette.inputs.placeholder_text()),
                border_radius: 35,
                border_width: 0,
                border_color: transparent(),
            },
        }
    }

    /// Resolves the look of a text fragment.
    pub fn text_appearance(&self, style: ModernColor) -> (a: TextAppearance)
        ensures
            a == spec_text_appearance(style),
    {
        match style {
            ModernColor::Default => TextAppearance { color: None },
            ModernColor::Custom(r, g, b) => TextAppearance {
                color: Some(from_rgba(r, g, b, 100)),
            },
        }
    }

    /// Resolves the application chrome.
    pub fn application_appearance(&self) -> (a: ApplicationAppearance)
        ensures
            a == spec_application_appearance(*self),
    {
        let palette = self.palette();
        ApplicationAppearance {
            background_color: palette.app.background(),
            text_color: palette.app.text(),
        }
    }

    /// Resolves the look of a toggler in either position.
    pub fn toggler_active(&self, is_active: bool) -> (a: TogglerAppearance)
        ensures
            a == spec_toggler_appearance(*self),
    {
        let _ = is_active;
        let palette = self.palette();
        TogglerAppearance {
            background: palette.toggler.background(),
            background_border: None,
            foreground: palette.toggler.foreground(),
            foreground_border: None,
        }
    }

    /// Resolves the look of a hovered toggler: identical to the rest look.
    pub fn toggler_hovered(&self, is_active: bool) -> (a: TogglerAppearance)
        ensures
            a == spec_toggler_appearance(*self),
    {
        self.toggler_active(is_active)
    }

    /// Resolves the look of an active text input.
    pub fn text_input_active(&self) -> (a: TextInputAppearance)
        ensures
            a == spec_text_input_enabled(*self),
    {
        let palette = self.palette();
        TextInputAppearance {
            background: palette.inputs.background(),
            border_radius: 100,
            border_width: 0,
            border_color: palette.inputs.border_color(),
            icon_color: palette.inputs.icon_color(),
        }
    }

    /// Resolves the look of a focused text input: identical to the active
    /// look.
    pub fn text_input_focused(&self) -> (a: TextInputAppearance)
        ensures
            a == spec_text_input_enabled(*self),
    {
        self.text_input_active()
    }

    /// Resolves the look of a disabled text input.
    pub fn text_input_disabled(&self) -> (a: TextInputAppearance)
        ensures
            a == spec_text_input_disabled(*self),
    {
        let palette = self.palette();
        TextInputAppearance {
            background: palette.inputs.background(),
            border_radius: BORDER_RADIUS,
            border_width: 2,
            border_color: palette.inputs.border_color(),
            icon_color: palette.inputs.icon_color(),
        }
    }

    /// The placeholder text color of a text input.
    pub fn text_input_placeholder_color(&self) -> (c: Color)
        ensures
            c == spec_palette(*self).inputs.placeholder_text.resolved(),
    {
        self.palette().inputs.placeholder_text()
    }

    /// The typed-value text color of a text input.
    pub fn text_input_value_color(&self) -> (c: Color)
        ensures
            c == spec_palette(*self).inputs.text.resolved(),
    {
        self.palette().inputs.text()
    }

    /// The selection highlight color of a text input: a fixed translucent
    /// gray, the same for both themes.
    pub fn text_input_selection_color(&self) -> (c: Color)
        ensures
            c == spec_from_rgba(70, 70, 70, 60),
    {
        from_rgba(70, 70, 70, 60)
    }

    /// The disabled-value text color of a text input.
    pub fn text_input_disabled_color(&self) -> (c: Color)
        ensures
            c == spec_palette(*self).inputs.disabled_color.resolved(),
    {
        self.palette().inputs.disabled_color()
    }

    /// Resolves the look of a rule (divider).
    pub fn rule_appearance(&self) -> (a: RuleAppearance)
        ensures
            a == spec_rule_appearance(*self),
    {
        let palette = self.palette();
        RuleAppearance {
            color: palette.inputs.placeholder_text(),
            width: 2,
            radius: 90,
            fill_percent: 20,
        }
    }

    /// Resolves the look of a scrollbar at rest.
    pub fn scrollable_active(&self) -> (a: Scrollbar)
        ensures
            a == spec_scrollable_active(*self),
    {
        let palette = self.palette();
        Scrollbar {
            background: Some(palette.buttons.secondary()),
            border_radius: 90,
            border_width: 2,
            border_color: transparent(),
            scroller: Scroller {
                color: palette.inputs.placeholder_text(),
                border_radius: 90,
                border_width: 2,
                border_color: transparent(),
            },
        }
    }

    /// Resolves the look of a hovered scrollbar.
    pub fn scrollable_hovered(&self, is_mouse_over_scrollbar: bool) -> (a: Scrollbar)
        ensures
            a == spec_scrollable_hovered(*self),
    {
        let _ = is_mouse_over_scrollbar;
        let palette = self.palette();
        Scrollbar {
            background: Some(palette.inputs.placeholder_text()),
            border_radius: 90,
            border_width: 2,
            border_color: transparent(),
            scroller: Scroller {
                color: palette.buttons.primary(),
                border_radius: 90,
                border_width: 2,
                border_color: transparent(),
            },
        }
    }
}

/// A `Tag` button's resolved background ignores the active theme's button
/// palette entirely: under any two themes it equals the supplied accent
/// triple converted by the opaque RGB rule.
pub proof fn lemma_tag_style_ignores_theme(t1: ModernTheme, t2: ModernTheme, r: u8, g: u8, b: u8)
    ensures
        spec_button_active(t1, ModernButton::Tag(r, g, b)).background == Some(
            spec_from_rgb(r, g, b),
        ),
        spec_button_active(t1, ModernButton::Tag(r, g, b)).background == spec_button_active(
            t2,
            ModernButton::Tag(r, g, b),
        ).background,
{
}

} // verus!
