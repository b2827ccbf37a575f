use vstd::prelude::*;

verus! {

/// Color theme of the monitor.
#[derive(Debug, Clone, Copy, PartialEq, Eq, Structural)]
pub enum Theme {
    Btop,
    Dracula,
    Catppuccin,
    TokyoNight,
    Gruvbox,
    Nord,
    HighContrast,
    Protanopia,
    Deuteranopia,
    Tritanopia,
    Solarized,
    Monokai,
}

/// The canonical name of a theme.
pub open spec fn theme_name(t: Theme) -> Seq<char> {
    match t {
        Theme::Btop => "btop"@,
        Theme::Dracula => "dracula"@,
        Theme::Catppuccin => "catppuccin"@,
        Theme::TokyoNight => "tokyo-night"@,
        Theme::Gruvbox => "gruvbox"@,
        Theme::Nord => "nord"@,
        Theme::HighContrast => "high-contrast"@,
        Theme::Protanopia => "protanopia"@,
        Theme::Deuteranopia => "deuteranopia"@,
        Theme::Tritanopia => "tritanopia"@,
        Theme::Solarized => "solarized"@,
        Theme::Monokai => "monokai"@,
    }
}

/// The theme a name denotes: the canonical names, plus `tokyonight`,
/// `tokyo_night`, `high_contrast` and `highcontrast`.
pub open spec fn theme_named(name: Seq<char>) -> Option<Theme> {
    if name == "btop"@ {
        Some(Theme::Btop)
    } else if name == "dracula"@ {
        Some(Theme::Dracula)
    } else if name == "catppuccin"@ {
        Some(Theme::Catppuccin)
    } else if name == "tokyo-night"@ || name == "tokyonight"@ || name == "tokyo_night"@ {
        Some(Theme::TokyoNight)
    } else if name == "gruvbox"@ {
        Some(Theme::Gruvbox)
    } else if name == "nord"@ {
        Some(Theme::Nord)
    } else if name == "high-contrast"@ || name == "high_contrast"@ || name == "highcontrast"@ {
        Some(Theme::HighContrast)
    } else if name == "protanopia"@ {
        Some(Theme::Protanopia)
    } else if name == "deuteranopia"@ {
        Some(Theme::Deuteranopia)
    } else if name == "tritanopia"@ {
        Some(Theme::Tritanopia)
    } else if name == "solarized"@ {
        Some(Theme::Solarized)
    } else if name == "monokai"@ {
        Some(Theme::Monokai)
    } else {
        None
    }
}

/// Every theme, in alphabetical order of name.
pub open spec fn all_themes() -> Seq<Theme> {
    seq![
        Theme::Btop,
        Theme::Catppuccin,
        Theme::Deuteranopia,
        Theme::Dracula,
        Theme::Gruvbox,
        Theme::HighContrast,
        Theme::Monokai,
        Theme::Nord,
        Theme::Protanopia,
        Theme::Solarized,
        Theme::TokyoNight,
        Theme::Tritanopia,
    ]
}

impl Theme {
    /// Every theme, in alphabetical order of name.
    pub fn all() -> (themes: &'static [Theme])
        ensures
            themes@ == all_themes(),
    {
        let themes: &'static [Theme] = &[
            Theme::Btop,
            Theme::Catppuccin,
            Theme::Deuteranopia,
            Theme::Dracula,
            Theme::Gruvbox,
            Theme::HighContrast,
            Theme::Monokai,
            Theme::Nord,
            Theme::Protanopia,
            Theme::Solarized,
            Theme::TokyoNight,
            Theme::Tritanopia,
        ];
        themes
    }

    /// The canonical name.
    pub fn name(&self) -> (n: &'static str)
        ensures
            n@ == theme_name(*self),
    {
        match self {
            Theme::Btop => "btop",
            Theme::Dracula => "dracula",
            Theme::Catppuccin => "catppuccin",
            Theme::TokyoNight => "tokyo-night",
            Theme::Gruvbox => "gruvbox",
            Theme::Nord => "nord",
            Theme::HighContrast => "high-contrast",
            Theme::Protanopia => "protanopia",
            Theme::Deuteranopia => "deuteranopia",
            Theme::Tritanopia => "tritanopia",
            Theme::Solarized => "solarized",
            Theme::Monokai => "monokai",
        }
    }

    /// The theme a name denotes, if any.
    pub fn from_name(name: &str) -> (t: Option<Theme>)
        ensures
            t == theme_named(name@),
    {
        let n = name.to_owned();
        if n == "btop".to_owned() {
            Some(Theme::Btop)
        } else if n == "dracula".to_owned() {
            Some(Theme::Dracula)
        } else if n == "catppuccin".to_owned() {
            Some(Theme::Catppuccin)
        } else if n == "tokyo-night".to_owned() || n == "tokyonight".to_owned() || n
            == "tokyo_night".to_owned() {
            Some(Theme::TokyoNight)
        } else if n == "gruvbox".to_owned() {
            Some(Theme::Gruvbox)
        } else if n == "nord".to_owned() {
            Some(Theme::Nord)
        } else if n == "high-contrast".to_owned() || n == "high_contrast".to_owned() || n
            == "highcontrast".to_owned() {
            Some(Theme::HighContrast)
        } else if n == "protanopia".to_owned() {
            Some(Theme::Protanopia)
        } else if n == "deuteranopia".to_owned() {
            Some(Theme::Deuteranopia)
        } else if n == "tritanopia".to_owned() {
            Some(Theme::Tritanopia)
        } else if n == "solarized".to_owned() {
            Some(Theme::Solarized)
        } else if n == "monokai".to_owned() {
            Some(Theme::Monokai)
        } else {
            None
        }
    }

    /// The theme a configuration value names, `btop` when it names none.
    pub fn from_config(value: Option<&str>) -> (t: Theme)
        ensures
            t == match value {
                Some(v) => match theme_named(v@) {
                    Some(x) => x,
                    None => Theme::Btop,
                },
                None => Theme::Btop,
            },
    {
        match value {
            Some(v) => match Theme::from_name(v) {
                Some(x) => x,
                None => Theme::Btop,
            },
            None => Theme::Btop,
        }
    }
}


/// A terminal color: a named ANSI color or a 24-bit RGB color.
#[derive(Debug, Clone, Copy, PartialEq, Eq, Structural)]
pub enum Color {
    Black,
    Red,
    Green,
    Yellow,
    Cyan,
    Gray,
    DarkGray,
    White,
    Rgb(u8, u8, u8),
}

/// The colors a theme uses for each part of the monitor.
#[derive(Debug, Clone, Copy, PartialEq, Eq, Structural)]
pub struct Palette {
    pub ok: Color,
    pub warning: Color,
    pub danger: Color,
    pub header_bg: Color,
    pub border: Color,
    pub text: Color,
    pub muted: Color,
    pub gauge_ok: Color,
    pub gauge_warning: Color,
    pub gauge_danger: Color,
    pub sparkline: Color,
    pub key_bg: Color,
    pub key_fg: Color,
    pub accent: Color,
}

/// The palette of each theme.
pub open spec fn theme_palette(t: Theme) -> Palette {
    match t {
        Theme::Btop => Palette {
            ok: Color::Green,
            warning: Color::Yellow,
            danger: Color::Red,
            header_bg: Color::DarkGray,
            border: Color::DarkGray,
            text: Color::White,
            muted: Color::DarkGray,
            gauge_ok: Color::Green,
            gauge_warning: Color::Yellow,
            gauge_danger: Color::Red,
            sparkline: Color::Cyan,
            key_bg: Color::Black,
            key_fg: Color::White,
            accent: Color::Cyan,
        },
        Theme::Dracula => Palette {
            ok: Color::Rgb(80, 250, 123),
            warning: Color::Rgb(241, 250, 128),
            danger: Color::Rgb(255, 85, 85),
            header_bg: Color::Rgb(68, 71, 90),
            border: Color::Rgb(98, 114, 164),
            text: Color::Rgb(248, 248, 242),
            muted: Color::Rgb(98, 114, 164),
            gauge_ok: Color::Rgb(80, 250, 123),
            gauge_warning: Color::Rgb(241, 250, 128),
            gauge_danger: Color::Rgb(255, 85, 85),
            sparkline: Color::Rgb(189, 147, 249),
            key_bg: Color::Rgb(68, 71, 90),
            key_fg: Color::Rgb(248, 248, 242),
            accent: Color::Rgb(139, 233, 253),
        },
        Theme::Catppuccin => Palette {
            ok: Color::Rgb(166, 227, 161),
            warning: Color::Rgb(249, 226, 175),
            danger: Color::Rgb(243, 139, 168),
            header_bg: Color::Rgb(49, 50, 68),
            border: Color::Rgb(88, 91, 112),
            text: Color::Rgb(205, 214, 244),
            muted: Color::Rgb(88, 91, 112),
            gauge_ok: Color::Rgb(166, 227, 161),
            gauge_warning: Color::Rgb(249, 226, 175),
            gauge_danger: Color::Rgb(243, 139, 168),
            sparkline: Color::Rgb(137, 180, 250),
            key_bg: Color::Rgb(49, 50, 68),
            key_fg: Color::Rgb(205, 214, 244),
            accent: Color::Rgb(148, 226, 213),
        },
        Theme::TokyoNight => Palette {
            ok: Color::Rgb(158, 206, 106),
            warning: Color::Rgb(224, 175, 104),
            danger: Color::Rgb(247, 118, 142),
            header_bg: Color::Rgb(30, 33, 48),
            border: Color::Rgb(59, 66, 97),
            text: Color::Rgb(192, 202, 245),
            muted: Color::Rgb(59, 66, 97),
            gauge_ok: Color::Rgb(158, 206, 106),
            gauge_warning: Color::Rgb(224, 175, 104),
            gauge_danger: Color::Rgb(247, 118, 142),
            sparkline: Color::Rgb(122, 162, 247),
            key_bg: Color::Rgb(30, 33, 48),
            key_fg: Color::Rgb(192, 202, 245),
            accent: Color::Rgb(125, 207, 255),
        },
        Theme::Gruvbox => Palette {
            ok: Color::Rgb(184, 187, 38),
            warning: Color::Rgb(250, 189, 47),
            danger: Color::Rgb(251, 73, 52),
            header_bg: Color::Rgb(40, 40, 40),
            border: Color::Rgb(124, 111, 100),
            text: Color::Rgb(235, 219, 178),
            muted: Color::Rgb(124, 111, 100),
            gauge_ok: Color::Rgb(184, 187, 38),
            gauge_warning: Color::Rgb(250, 189, 47),
            gauge_danger: Color::Rgb(251, 73, 52),
            sparkline: Color::Rgb(131, 165, 152),
            key_bg: Color::Rgb(40, 40, 40),
            key_fg: Color::Rgb(235, 219, 178),
            accent: Color::Rgb(183, 179, 106),
        },
        Theme::Nord => Palette {
            ok: Color::Rgb(163, 190, 140),
            warning: Color::Rgb(235, 203, 139),
            danger: Color::Rgb(191, 97, 106),
            header_bg: Color::Rgb(59, 66, 82),
            border: Color::Rgb(76, 86, 106),
            text: Color::Rgb(216, 222, 233),
            muted: Color::Rgb(76, 86, 106),
            gauge_ok: Color::Rgb(163, 190, 140),
            gauge_warning: Color::Rgb(235, 203, 139),
            gauge_danger: Color::Rgb(191, 97, 106),
            sparkline: Color::Rgb(129, 161, 193),
            key_bg: Color::Rgb(59, 66, 82),
            key_fg: Color::Rgb(216, 222, 233),
            accent: Color::Rgb(143, 188, 187),
        },
        Theme::HighContrast => Palette {
            ok: Color::Green,
            warning: Color::Yellow,
            danger: Color::Red,
            header_bg: Color::Black,
            border: Color::White,
            text: Color::White,
            muted: Color::Gray,
            gauge_ok: Color::Green,
            gauge_warning: Color::Yellow,
            gauge_danger: Color::Red,
            sparkline: Color::Cyan,
            key_bg: Color::White,
            key_fg: Color::Black,
            accent: Color::Cyan,
        },
        Theme::Protanopia => Palette {
            ok: Color::Rgb(100, 180, 246),
            warning: Color::Rgb(238, 210, 2),
            danger: Color::Rgb(255, 167, 38),
            header_bg: Color::Rgb(40, 42, 54),
            border: Color::Rgb(68, 71, 90),
            text: Color::Rgb(248, 248, 242),
            muted: Color::Rgb(68, 71, 90),
            gauge_ok: Color::Rgb(100, 180, 246),
            gauge_warning: Color::Rgb(238, 210, 2),
            gauge_danger: Color::Rgb(255, 167, 38),
            sparkline: Color::Rgb(189, 147, 249),
            key_bg: Color::Rgb(40, 42, 54),
            key_fg: Color::Rgb(248, 248, 242),
            accent: Color::Rgb(139, 233, 253),
        },
        Theme::Deuteranopia => Palette {
            ok: Color::Rgb(100, 180, 246),
            warning: Color::Rgb(255, 183, 77),
            danger: Color::Rgb(239, 83, 80),
            header_bg: Color::Rgb(40, 42, 54),
            border: Color::Rgb(68, 71, 90),
            text: Color::Rgb(248, 248, 242),
            muted: Color::Rgb(68, 71, 90),
            gauge_ok: Color::Rgb(100, 180, 246),
            gauge_warning: Color::Rgb(255, 183, 77),
            gauge_danger: Color::Rgb(239, 83, 80),
            sparkline: Color::Rgb(189, 147, 249),
            key_bg: Color::Rgb(40, 42, 54),
            key_fg: Color::Rgb(248, 248, 242),
            accent: Color::Rgb(139, 233, 253),
        },
        Theme::Tritanopia => Palette {
            ok: Color::Rgb(100, 221, 173),
            warning: Color::Rgb(239, 83, 80),
            danger: Color::Rgb(229, 57, 53),
            header_bg: Color::Rgb(40, 42, 54),
            border: Color::Rgb(68, 71, 90),
            text: Color::Rgb(248, 248, 242),
            muted: Color::Rgb(68, 71, 90),
            gauge_ok: Color::Rgb(100, 221, 173),
            gauge_warning: Color::Rgb(239, 83, 80),
            gauge_danger: Color::Rgb(229, 57, 53),
            sparkline: Color::Rgb(149, 117, 205),
            key_bg: Color::Rgb(40, 42, 54),
            key_fg: Color::Rgb(248, 248, 242),
            accent: Color::Rgb(139, 233, 253),
        },
        Theme::Solarized => Palette {
            ok: Color::Rgb(133, 153, 0),
            warning: Color::Rgb(181, 137, 0),
            danger: Color::Rgb(203, 75, 22),
            header_bg: Color::Rgb(0, 43, 54),
            border: Color::Rgb(7, 54, 66),
            text: Color::Rgb(253, 246, 227),
            muted: Color::Rgb(7, 54, 66),
            gauge_ok: Color::Rgb(133, 153, 0),
            gauge_warning: Color::Rgb(181, 137, 0),
            gauge_danger: Color::Rgb(203, 75, 22),
            sparkline: Color::Rgb(38, 139, 210),
            key_bg: Color::Rgb(0, 43, 54),
            key_fg: Color::Rgb(253, 246, 227),
            accent: Color::Rgb(42, 161, 152),
        },
        Theme::Monokai => Palette {
            ok: Color::Rgb(166, 226, 46),
            warning: Color::Rgb(230, 219, 100),
            danger: Color::Rgb(249, 38, 114),
            header_bg: Color::Rgb(39, 40, 34),
            border: Color::Rgb(85, 85, 85),
            text: Color::Rgb(248, 248, 242),
            muted: Color::Rgb(85, 85, 85),
            gauge_ok: Color::Rgb(166, 226, 46),
            gauge_warning: Color::Rgb(230, 219, 100),
            gauge_danger: Color::Rgb(249, 38, 114),
            sparkline: Color::Rgb(174, 129, 255),
            key_bg: Color::Rgb(39, 40, 34),
            key_fg: Color::Rgb(248, 248, 242),
            accent: Color::Rgb(102, 217, 239),
        },
    }
}

/// The color for a level text: danger, warning, and ok for anything else.
pub open spec fn level_color_of(p: Palette, level: Seq<char>) -> Color {
    if level == "danger"@ {
        p.danger
    } else if level == "warning"@ {
        p.warning
    } else {
        p.ok
    }
}

impl Theme {
    /// The theme's palette.
    pub fn palette(&self) -> (p: Palette)
        ensures
            p == theme_palette(*self),
    {
        match self {
            Theme::Btop => Palette {
                ok: Color::Green,
                warning: Color::Yellow,
                danger: Color::Red,
                header_bg: Color::DarkGray,
                border: Color::DarkGray,
                text: Color::White,
                muted: Color::DarkGray,
                gauge_ok: Color::Green,
                gauge_warning: Color::Yellow,
                gauge_danger: Color::Red,
                sparkline: Color::Cyan,
                key_bg: Color::Black,
                key_fg: Color::White,
                accent: Color::Cyan,
            },
            Theme::Dracula => Palette {
                ok: Color::Rgb(80, 250, 123),
                warning: Color::Rgb(241, 250, 128),
                danger: Color::Rgb(255, 85, 85),
                header_bg: Color::Rgb(68, 71, 90),
                border: Color::Rgb(98, 114, 164),
                text: Color::Rgb(248, 248, 242),
                muted: Color::Rgb(98, 114, 164),
                gauge_ok: Color::Rgb(80, 250, 123),
                gauge_warning: Color::Rgb(241, 250, 128),
                gauge_danger: Color::Rgb(255, 85, 85),
                sparkline: Color::Rgb(189, 147, 249),
                key_bg: Color::Rgb(68, 71, 90),
                key_fg: Color::Rgb(248, 248, 242),
                accent: Color::Rgb(139, 233, 253),
            },
            Theme::Catppuccin => Palette {
                ok: Color::Rgb(166, 227, 161),
                warning: Color::Rgb(249, 226, 175),
                danger: Color::Rgb(243, 139, 168),
                header_bg: Color::Rgb(49, 50, 68),
                border: Color::Rgb(88, 91, 112),
                text: Color::Rgb(205, 214, 244),
                muted: Color::Rgb(88, 91, 112),
                gauge_ok: Color::Rgb(166, 227, 161),
                gauge_warning: Color::Rgb(249, 226, 175),
                gauge_danger: Color::Rgb(243, 139, 168),
                sparkline: Color::Rgb(137, 180, 250),
                key_bg: Color::Rgb(49, 50, 68),
                key_fg: Color::Rgb(205, 214, 244),
                accent: Color::Rgb(148, 226, 213),
            },
            Theme::TokyoNight => Palette {
                ok: Color::Rgb(158, 206, 106),
                warning: Color::Rgb(224, 175, 104),
                danger: Color::Rgb(247, 118, 142),
                header_bg: Color::Rgb(30, 33, 48),
                border: Color::Rgb(59, 66, 97),
                text: Color::Rgb(192, 202, 245),
                muted: Color::Rgb(59, 66, 97),
                gauge_ok: Color::Rgb(158, 206, 106),
                gauge_warning: Color::Rgb(224, 175, 104),
                gauge_danger: Color::Rgb(247, 118, 142),
                sparkline: Color::Rgb(122, 162, 247),
                key_bg: Color::Rgb(30, 33, 48),
                key_fg: Color::Rgb(192, 202, 245),
                accent: Color::Rgb(125, 207, 255),
            },
            Theme::Gruvbox => Palette {
                ok: Color::Rgb(184, 187, 38),
                warning: Color::Rgb(250, 189, 47),
                danger: Color::Rgb(251, 73, 52),
                header_bg: Color::Rgb(40, 40, 40),
                border: Color::Rgb(124, 111, 100),
                text: Color::Rgb(235, 219, 178),
                muted: Color::Rgb(124, 111, 100),
                gauge_ok: Color::Rgb(184, 187, 38),
                gauge_warning: Color::Rgb(250, 189, 47),
                gauge_danger: Color::Rgb(251, 73, 52),
                sparkline: Color::Rgb(131, 165, 152),
                key_bg: Color::Rgb(40, 40, 40),
                key_fg: Color::Rgb(235, 219, 178),
                accent: Color::Rgb(183, 179, 106),
            },
            Theme::Nord => Palette {
                ok: Color::Rgb(163, 190, 140),
                warning: Color::Rgb(235, 203, 139),
                danger: Color::Rgb(191, 97, 106),
                header_bg: Color::Rgb(59, 66, 82),
                border: Color::Rgb(76, 86, 106),
                text: Color::Rgb(216, 222, 233),
                muted: Color::Rgb(76, 86, 106),
                gauge_ok: Color::Rgb(163, 190, 140),
                gauge_warning: Color::Rgb(235, 203, 139),
                gauge_danger: Color::Rgb(191, 97, 106),
                sparkline: Color::Rgb(129, 161, 193),
                key_bg: Color::Rgb(59, 66, 82),
                key_fg: Color::Rgb(216, 222, 233),
                accent: Color::Rgb(143, 188, 187),
            },
            Theme::HighContrast => Palette {
                ok: Color::Green,
                warning: Color::Yellow,
                danger: Color::Red,
                header_bg: Color::Black,
                border: Color::White,
                text: Color::White,
                muted: Color::Gray,
                gauge_ok: Color::Green,
                gauge_warning: Color::Yellow,
                gauge_danger: Color::Red,
                sparkline: Color::Cyan,
                key_bg: Color::White,
                key_fg: Color::Black,
                accent: Color::Cyan,
            },
            Theme::Protanopia => Palette {
                ok: Color::Rgb(100, 180, 246),
                warning: Color::Rgb(238, 210, 2),
                danger: Color::Rgb(255, 167, 38),
                header_bg: Color::Rgb(40, 42, 54),
                border: Color::Rgb(68, 71, 90),
                text: Color::Rgb(248, 248, 242),
                muted: Color::Rgb(68, 71, 90),
                gauge_ok: Color::Rgb(100, 180, 246),
                gauge_warning: Color::Rgb(238, 210, 2),
                gauge_danger: Color::Rgb(255, 167, 38),
                sparkline: Color::Rgb(189, 147, 249),
                key_bg: Color::Rgb(40, 42, 54),
                key_fg: Color::Rgb(248, 248, 242),
                accent: Color::Rgb(139, 233, 253),
            },
            Theme::Deuteranopia => Palette {
                ok: Color::Rgb(100, 180, 246),
                warning: Color::Rgb(255, 183, 77),
                danger: Color::Rgb(239, 83, 80),
                header_bg: Color::Rgb(40, 42, 54),
                border: Color::Rgb(68, 71, 90),
                text: Color::Rgb(248, 248, 242),
                muted: Color::Rgb(68, 71, 90),
                gauge_ok: Color::Rgb(100, 180, 246),
                gauge_warning: Color::Rgb(255, 183, 77),
                gauge_danger: Color::Rgb(239, 83, 80),
                sparkline: Color::Rgb(189, 147, 249),
                key_bg: Color::Rgb(40, 42, 54),
                key_fg: Color::Rgb(248, 248, 242),
                accent: Color::Rgb(139, 233, 253),
            },
            Theme::Tritanopia => Palette {
                ok: Color::Rgb(100, 221, 173),
                warning: Color::Rgb(239, 83, 80),
                danger: Color::Rgb(229, 57, 53),
                header_bg: Color::Rgb(40, 42, 54),
                border: Color::Rgb(68, 71, 90),
                text: Color::Rgb(248, 248, 242),
                muted: Color::Rgb(68, 71, 90),
                gauge_ok: Color::Rgb(100, 221, 173),
                gauge_warning: Color::Rgb(239, 83, 80),
                gauge_danger: Color::Rgb(229, 57, 53),
                sparkline: Color::Rgb(149, 117, 205),
                key_bg: Color::Rgb(40, 42, 54),
                key_fg: Color::Rgb(248, 248, 242),
                accent: Color::Rgb(139, 233, 253),
            },
            Theme::Solarized => Palette {
                ok: Color::Rgb(133, 153, 0),
                warning: Color::Rgb(181, 137, 0),
                danger: Color::Rgb(203, 75, 22),
                header_bg: Color::Rgb(0, 43, 54),
                border: Color::Rgb(7, 54, 66),
                text: Color::Rgb(253, 246, 227),
                muted: Color::Rgb(7, 54, 66),
                gauge_ok: Color::Rgb(133, 153, 0),
                gauge_warning: Color::Rgb(181, 137, 0),
                gauge_danger: Color::Rgb(203, 75, 22),
                sparkline: Color::Rgb(38, 139, 210),
                key_bg: Color::Rgb(0, 43, 54),
                key_fg: Color::Rgb(253, 246, 227),
                accent: Color::Rgb(42, 161, 152),
            },
            Theme::Monokai => Palette {
                ok: Color::Rgb(166, 226, 46),
                warning: Color::Rgb(230, 219, 100),
                danger: Color::Rgb(249, 38, 114),
                header_bg: Color::Rgb(39, 40, 34),
                border: Color::Rgb(85, 85, 85),
                text: Color::Rgb(248, 248, 242),
                muted: Color::Rgb(85, 85, 85),
                gauge_ok: Color::Rgb(166, 226, 46),
                gauge_warning: Color::Rgb(230, 219, 100),
                gauge_danger: Color::Rgb(249, 38, 114),
                sparkline: Color::Rgb(174, 129, 255),
                key_bg: Color::Rgb(39, 40, 34),
                key_fg: Color::Rgb(248, 248, 242),
                accent: Color::Rgb(102, 217, 239),
            },
        }
    }
}

impl Palette {
    /// The color for a window level (`danger`, `warning`, anything else ok).
    pub fn level_color(&self, level: &str) -> (c: Color)
        ensures
            c == level_color_of(*self, level@),
    {
        let l = level.to_owned();
        if l == "danger".to_owned() {
            self.danger
        } else if l == "warning".to_owned() {
            self.warning
        } else {
            self.ok
        }
    }
}

} // verus!
