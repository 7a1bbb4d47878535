use search::color::{darken, from_rgb, from_rgba, transparent};
use search::palette::ModernTheme;
use search::style::{ModernButton, ModernColor, ModernContainer, BORDER_RADIUS};

#[test]
fn every_button_variant_is_pill_shaped() {
    for theme in [ModernTheme::Dark, ModernTheme::Light] {
        for style in [
            ModernButton::Principal,
            ModernButton::Secondary,
            ModernButton::Text,
            ModernButton::Tag(1, 2, 3),
        ] {
            assert_eq!(theme.button_active(&style).border_radius, 100);
        }
    }
}

#[test]
fn tag_background_ignores_the_theme_palette() {
    let accent = (96u8, 177u8, 121u8);
    let style = ModernButton::Tag(accent.0, accent.1, accent.2);
    let dark = ModernTheme::Dark.button_active(&style);
    let light = ModernTheme::Light.button_active(&style);
    let expected = from_rgb(accent.0, accent.1, accent.2);
    assert_eq!(dark.background, Some(expected));
    assert_eq!(light.background, Some(expected));
    assert_eq!(dark.background, light.background);
    assert_ne!(Some(ModernTheme::Dark.palette().buttons.tag()), dark.background);
}

#[test]
fn principal_button_uses_palette_background_and_fixed_text_color() {
    let a = ModernTheme::Dark.button_active(&ModernButton::Principal);
    assert_eq!(a.background, Some(from_rgba(253, 213, 193, 100)));
    assert_eq!(a.text_color, from_rgba(255, 110, 1, 100));
    let a = ModernTheme::Light.button_active(&ModernButton::Principal);
    assert_eq!(a.background, Some(from_rgba(51, 88, 219, 100)));
    assert_eq!(a.text_color, from_rgba(255, 110, 1, 100));
}

#[test]
fn hover_promotes_secondary_to_principal_and_keeps_the_rest() {
    for theme in [ModernTheme::Dark, ModernTheme::Light] {
        assert_eq!(
            theme.button_hovered(&ModernButton::Secondary),
            theme.button_active(&ModernButton::Principal)
        );
        for style in [ModernButton::Principal, ModernButton::Text, ModernButton::Tag(9, 8, 7)] {
            assert_eq!(theme.button_hovered(&style), theme.button_active(&style));
        }
    }
}

#[test]
fn pressed_darkens_background_and_text_by_seven_tenths() {
    let theme = ModernTheme::Dark;
    let active = theme.button_active(&ModernButton::Principal);
    let pressed = theme.button_pressed(&ModernButton::Principal);
    assert_eq!(pressed.background, active.background.map(darken));
    assert_eq!(pressed.text_color, darken(active.text_color));
    assert_eq!(pressed.border_radius, active.border_radius);
    assert_eq!(pressed.border_width, active.border_width);
    assert_eq!(pressed.border_color, active.border_color);
}

#[test]
fn pressed_secondary_darkens_the_promoted_principal_look() {
    let theme = ModernTheme::Light;
    let promoted = theme.button_active(&ModernButton::Principal);
    let pressed = theme.button_pressed(&ModernButton::Secondary);
    assert_eq!(pressed.background, promoted.background.map(darken));
    assert_eq!(pressed.text_color, darken(promoted.text_color));
}

#[test]
fn text_button_has_transparent_background() {
    let a = ModernTheme::Dark.button_active(&ModernButton::Text);
    assert_eq!(a.background, Some(transparent()));
}

#[test]
fn container_variants_follow_the_policy_table() {
    for theme in [ModernTheme::Dark, ModernTheme::Light] {
        let palette = theme.palette();

        let plain = theme.container_appearance(&ModernContainer::Default);
        assert_eq!(plain.background, None);

        let input = theme.container_appearance(&ModernContainer::Input);
        assert_eq!(input.background, Some(palette.inputs.background()));
        assert_eq!(input.border_radius, 100);

        let historial = theme.container_appearance(&ModernContainer::Historial);
        assert_eq!(historial.background, Some(palette.inputs.background()));
        assert_eq!(historial.border_radius, 35);

        let line = theme.container_appearance(&ModernContainer::Line);
        assert_eq!(line.background, Some(palette.inputs.placeholder_text()));
        assert_eq!(line.border_radius, 35);
    }
}

#[test]
fn custom_text_overrides_color_as_fully_opaque() {
    let a = ModernTheme::Dark.text_appearance(ModernColor::Custom(160, 160, 160));
    assert_eq!(a.color, Some(from_rgba(160, 160, 160, 100)));
    let d = ModernTheme::Dark.text_appearance(ModernColor::Default);
    assert_eq!(d.color, None);
}

#[test]
fn toggler_hover_renders_identically_to_active() {
    for theme in [ModernTheme::Dark, ModernTheme::Light] {
        for is_active in [true, false] {
            assert_eq!(theme.toggler_hovered(is_active), theme.toggler_active(is_active));
        }
    }
}

#[test]
fn disabled_text_input_differs_only_in_radius_and_border_width() {
    for theme in [ModernTheme::Dark, ModernTheme::Light] {
        let active = theme.text_input_active();
        assert_eq!(theme.text_input_focused(), active);
        assert_eq!(active.border_radius, 100);
        assert_eq!(active.border_width, 0);
        let disabled = theme.text_input_disabled();
        assert_eq!(disabled.border_radius, BORDER_RADIUS);
        assert_eq!(disabled.border_width, 2);
        assert_eq!(disabled.background, active.background);
        assert_eq!(disabled.border_color, active.border_color);
        assert_eq!(disabled.icon_color, active.icon_color);
    }
}

#[test]
fn selection_color_is_the_fixed_translucent_gray() {
    assert_eq!(
        ModernTheme::Dark.text_input_selection_color(),
        from_rgba(70, 70, 70, 60)
    );
    assert_eq!(
        ModernTheme::Light.text_input_selection_color(),
        from_rgba(70, 70, 70, 60)
    );
}

#[test]
fn rule_has_fixed_geometry_and_partial_fill() {
    let a = ModernTheme::Dark.rule_appearance();
    assert_eq!(a.width, 2);
    assert_eq!(a.radius, 90);
    assert_eq!(a.fill_percent, 20);
    assert_eq!(a.color, ModernTheme::Dark.palette().inputs.placeholder_text());
}

#[test]
fn scrollbar_hover_swaps_track_and_thumb_color_roles() {
    for theme in [ModernTheme::Dark, ModernTheme::Light] {
        let palette = theme.palette();
        let active = theme.scrollable_active();
        assert_eq!(active.background, Some(palette.buttons.secondary()));
        assert_eq!(active.scroller.color, palette.inputs.placeholder_text());
        let hovered = theme.scrollable_hovered(true);
        assert_eq!(hovered.background, Some(palette.inputs.placeholder_text()));
        assert_eq!(hovered.scroller.color, palette.buttons.primary());
    }
}

#[test]
fn application_chrome_comes_from_the_palette() {
    let a = ModernTheme::Dark.application_appearance();
    assert_eq!(a.background_color, from_rgba(31, 30, 37, 100));
    assert_eq!(a.text_color, from_rgba(250, 250, 242, 100));
    let a = ModernTheme::Light.application_appearance();
    assert_eq!(a.background_color, from_rgba(250, 250, 242, 100));
    assert_eq!(a.text_color, from_rgba(33, 35, 37, 100));
}
