use vimit::theme::{Color, Theme};

#[test]
fn all_themes_have_names() {
    for theme in Theme::all() {
        assert!(!theme.name().is_empty());
    }
}

#[test]
fn from_name_roundtrips() {
    for theme in Theme::all() {
        let roundtripped = Theme::from_name(theme.name());
        assert_eq!(roundtripped, Some(*theme));
    }
}

#[test]
fn name_list_is_alphabetical() {
    let names: Vec<&str> = Theme::all().iter().map(|t| t.name()).collect();
    let mut sorted = names.clone();
    sorted.sort();
    assert_eq!(names, sorted);
}

#[test]
fn from_name_rejects_unknown() {
    assert_eq!(Theme::from_name("nonexistent"), None);
}

#[test]
fn level_color_matches_level() {
    let palette = Theme::Btop.palette();
    assert_eq!(palette.level_color("ok"), Color::Green);
    assert_eq!(palette.level_color("warning"), Color::Yellow);
    assert_eq!(palette.level_color("danger"), Color::Red);
}

#[test]
fn theme_aliases_and_config_default() {
    assert_eq!(Theme::from_name("tokyonight"), Some(Theme::TokyoNight));
    assert_eq!(Theme::from_name("high_contrast"), Some(Theme::HighContrast));
    assert_eq!(Theme::from_config(Some("dracula")), Theme::Dracula);
    assert_eq!(Theme::from_config(Some("invalid")), Theme::Btop);
    assert_eq!(Theme::from_config(None), Theme::Btop);
    assert_eq!(Theme::all().len(), 12);
}

#[test]
fn dracula_palette_colors() {
    let p = Theme::Dracula.palette();
    assert_eq!(p.level_color("danger"), Color::Rgb(255, 85, 85));
    assert_eq!(p.level_color("anything"), Color::Rgb(80, 250, 123));
}

#[test]
fn all_palettes_produce_valid_colors() {
    for theme in Theme::all() {
        let palette = theme.palette();
        assert_eq!(palette.level_color("ok"), palette.ok);
        assert_eq!(palette.level_color("warning"), palette.warning);
        assert_eq!(palette.level_color("danger"), palette.danger);
    }
}
