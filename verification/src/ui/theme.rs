//! Colour depth detection, palette roles, and the three tokyonight palettes: one
//! for truecolor, one hand-picked for 256 colours, one of ANSI names only. Every
//! palette keeps the distinctions the screens rely on, and the fallbacks never
//! use RGB, which a limited terminal mangles.

use vstd::prelude::*;

use crate::text::{ascii_lower, contains, has_infix, str_eq, string_of, to_ascii_lower, trim, trim_spec};

verus! {

broadcast use vstd::string::group_string_axioms;

/// How many colours the terminal can render.
#[derive(Debug, Clone, Copy, PartialEq, Eq, Structural)]
pub enum ColorDepth {
    /// 24-bit RGB.
    Truecolor,
    /// 256-colour (xterm-256color).
    Ansi256,
    /// 16 colours or fewer.
    Basic,
}

/// A palette slot: what a span means, not which colour it is.
#[derive(Debug, Clone, Copy, PartialEq, Eq, Structural)]
pub enum Role {
    Bg,
    Fg,
    Muted,
    Up,
    Down,
    Accent,
    Price,
    Warn,
    Border,
    BorderFocus,
    Heading,
    Selection,
    Dim,
}

/// The detection tiers: `$COLORTERM` containing `truecolor` or `24bit` means
/// truecolor; else `$TERM` containing `256color` means 256 colours; else basic. A
/// missing variable reads as empty, and an empty `$COLORTERM` is not truecolor.
pub open spec fn depth_from_env(colorterm: Option<Seq<char>>, term: Option<Seq<char>>) -> ColorDepth {
    let ct = match colorterm {
        Some(s) => s,
        None => Seq::empty(),
    };
    let t = match term {
        Some(s) => s,
        None => Seq::empty(),
    };
    if contains(ct, "truecolor"@) || contains(ct, "24bit"@) {
        ColorDepth::Truecolor
    } else if contains(t, "256color"@) {
        ColorDepth::Ansi256
    } else {
        ColorDepth::Basic
    }
}

/// What a forced `QUOTAIL_COLOR` value selects, after trimming and ASCII
/// lower-casing; unknown values select nothing.
pub open spec fn forced_depth_spec(v: Seq<char>) -> Option<ColorDepth> {
    if v == "truecolor"@ || v == "24bit"@ || v == "24"@ {
        Some(ColorDepth::Truecolor)
    } else if v == "256"@ || v == "256color"@ {
        Some(ColorDepth::Ansi256)
    } else if v == "basic"@ || v == "16"@ || v == "8"@ || v == "ansi"@ {
        Some(ColorDepth::Basic)
    } else {
        None
    }
}

impl ColorDepth {
    /// The tier logic over the values of `$COLORTERM` and `$TERM`.
    pub fn from_env(colorterm: Option<&str>, term: Option<&str>) -> (d: ColorDepth)
        ensures
            d == depth_from_env(
                match colorterm {
                    Some(s) => Some(s@),
                    None => None,
                },
                match term {
                    Some(s) => Some(s@),
                    None => None,
                },
            ),
    {
        let ct = match colorterm {
            Some(s) => s,
            None => "",
        };
        let t = match term {
            Some(s) => s,
            None => "",
        };
        proof {
            reveal_strlit("");
            assert(""@ =~= Seq::<char>::empty());
        }
        if has_infix(ct, "truecolor") || has_infix(ct, "24bit") {
            return ColorDepth::Truecolor;
        }
        if has_infix(t, "256color") {
            return ColorDepth::Ansi256;
        }
        ColorDepth::Basic
    }

    /// The tier a `QUOTAIL_COLOR` override names, given the value already trimmed
    /// and ASCII lower-cased; `None` for an unknown value (detection then proceeds).
    pub fn forced(v: &str) -> (d: Option<ColorDepth>)
        ensures
            d == forced_depth_spec(v@),
    {
        if str_eq(v, "truecolor") || str_eq(v, "24bit") || str_eq(v, "24") {
            Some(ColorDepth::Truecolor)
        } else if str_eq(v, "256") || str_eq(v, "256color") {
            Some(ColorDepth::Ansi256)
        } else if str_eq(v, "basic") || str_eq(v, "16") || str_eq(v, "8") || str_eq(v, "ansi") {
            Some(ColorDepth::Basic)
        } else {
            None
        }
    }
}

/// The depth chosen at startup: a `QUOTAIL_COLOR` value that names a tier (after
/// trimming and ASCII lower-casing) wins; an unknown or absent one falls through
/// to the `$COLORTERM` / `$TERM` tiers.
pub open spec fn resolve_spec(
    forced: Option<Seq<char>>,
    colorterm: Option<Seq<char>>,
    term: Option<Seq<char>>,
) -> ColorDepth {
    match forced {
        Some(v) => match forced_depth_spec(ascii_lower(trim_spec(v))) {
            Some(d) => d,
            None => depth_from_env(colorterm, term),
        },
        None => depth_from_env(colorterm, term),
    }
}

/// A string option as its view.
pub open spec fn opt_view(s: Option<&str>) -> Option<Seq<char>> {
    match s {
        Some(v) => Some(v@),
        None => None,
    }
}

impl ColorDepth {
    /// Picks the depth from the values of `QUOTAIL_COLOR`, `$COLORTERM` and `$TERM`
    /// (each `None` when unset).
    pub fn resolve(forced: Option<&str>, colorterm: Option<&str>, term: Option<&str>) -> (d: ColorDepth)
        ensures
            d == resolve_spec(opt_view(forced), opt_view(colorterm), opt_view(term)),
    {
        if let Some(v) = forced {
            let trimmed = trim(v);
            let lowered = string_of(&to_ascii_lower(trimmed.as_str()));
            if let Some(d) = ColorDepth::forced(lowered.as_str()) {
                return d;
            }
        }
        ColorDepth::from_env(colorterm, term)
    }
}

/// The sixteen standard ANSI colour names.
#[derive(Debug, Clone, Copy, PartialEq, Eq, Structural)]
pub enum Ansi {
    Black,
    Red,
    Green,
    Yellow,
    Blue,
    Magenta,
    Cyan,
    Gray,
    DarkGray,
    LightRed,
    LightGreen,
    LightYellow,
    LightBlue,
    LightMagenta,
    LightCyan,
    White,
}

/// A terminal colour: 24-bit RGB, an index into the 256-colour table, or an ANSI
/// name. There is no "terminal default": every palette imposes its own colours.
#[derive(Debug, Clone, Copy, PartialEq, Eq, Structural)]
pub enum Color {
    Rgb(u8, u8, u8),
    Indexed(u8),
    Named(Ansi),
}

/// One colour per role.
#[derive(Debug, Clone, Copy, PartialEq, Eq, Structural)]
pub struct Palette {
    pub bg: Color,
    pub fg: Color,
    pub muted: Color,
    pub up: Color,
    pub down: Color,
    pub accent: Color,
    pub price: Color,
    pub warn: Color,
    pub border: Color,
    pub border_focus: Color,
    pub heading: Color,
    pub selection: Color,
    pub dim: Color,
}

/// The tokyonight palette for a colour depth.
pub open spec fn palette_spec(d: ColorDepth) -> Palette {
    match d {
        ColorDepth::Truecolor => Palette {
            bg: Color::Rgb(0x16, 0x18, 0x1f),
            fg: Color::Rgb(0xc0, 0xca, 0xf5),
            muted: Color::Rgb(0x56, 0x5f, 0x89),
            up: Color::Rgb(0x9e, 0xce, 0x6a),
            down: Color::Rgb(0xf7, 0x76, 0x8e),
            accent: Color::Rgb(0xff, 0x9e, 0x64),
            price: Color::Rgb(0x7d, 0xcf, 0xff),
            warn: Color::Rgb(0xe0, 0xaf, 0x68),
            border: Color::Rgb(0x3b, 0x42, 0x61),
            border_focus: Color::Rgb(0x7a, 0xa2, 0xf7),
            heading: Color::Rgb(0xbb, 0x9a, 0xf7),
            selection: Color::Rgb(0x2a, 0x2f, 0x45),
            dim: Color::Rgb(0x23, 0x28, 0x38),
        },
        ColorDepth::Ansi256 => Palette {
            bg: Color::Indexed(234),
            fg: Color::Indexed(189),
            muted: Color::Indexed(60),
            up: Color::Indexed(113),
            down: Color::Indexed(204),
            accent: Color::Indexed(216),
            price: Color::Indexed(117),
            warn: Color::Indexed(179),
            border: Color::Indexed(238),
            border_focus: Color::Indexed(111),
            heading: Color::Indexed(141),
            selection: Color::Indexed(237),
            dim: Color::Indexed(235),
        },
        ColorDepth::Basic => Palette {
            bg: Color::Named(Ansi::Black),
            fg: Color::Named(Ansi::White),
            muted: Color::Named(Ansi::DarkGray),
            up: Color::Named(Ansi::Green),
            down: Color::Named(Ansi::Red),
            accent: Color::Named(Ansi::LightYellow),
            price: Color::Named(Ansi::Cyan),
            warn: Color::Named(Ansi::Yellow),
            border: Color::Named(Ansi::Blue),
            border_focus: Color::Named(Ansi::LightBlue),
            heading: Color::Named(Ansi::Magenta),
            selection: Color::Named(Ansi::DarkGray),
            dim: Color::Named(Ansi::Black),
        },
    }
}

/// The palette for a detected colour depth.
pub fn palette(d: ColorDepth) -> (p: Palette)
    ensures
        p == palette_spec(d),
{
    match d {
        ColorDepth::Truecolor => Palette {
            bg: Color::Rgb(0x16, 0x18, 0x1f),
            fg: Color::Rgb(0xc0, 0xca, 0xf5),
            muted: Color::Rgb(0x56, 0x5f, 0x89),
            up: Color::Rgb(0x9e, 0xce, 0x6a),
            down: Color::Rgb(0xf7, 0x76, 0x8e),
            accent: Color::Rgb(0xff, 0x9e, 0x64),
            price: Color::Rgb(0x7d, 0xcf, 0xff),
            warn: Color::Rgb(0xe0, 0xaf, 0x68),
            border: Color::Rgb(0x3b, 0x42, 0x61),
            border_focus: Color::Rgb(0x7a, 0xa2, 0xf7),
            heading: Color::Rgb(0xbb, 0x9a, 0xf7),
            selection: Color::Rgb(0x2a, 0x2f, 0x45),
            dim: Color::Rgb(0x23, 0x28, 0x38),
        },
        ColorDepth::Ansi256 => Palette {
            bg: Color::Indexed(234),
            fg: Color::Indexed(189),
            muted: Color::Indexed(60),
            up: Color::Indexed(113),
            down: Color::Indexed(204),
            accent: Color::Indexed(216),
            price: Color::Indexed(117),
            warn: Color::Indexed(179),
            border: Color::Indexed(238),
            border_focus: Color::Indexed(111),
            heading: Color::Indexed(141),
            selection: Color::Indexed(237),
            dim: Color::Indexed(235),
        },
        ColorDepth::Basic => Palette {
            bg: Color::Named(Ansi::Black),
            fg: Color::Named(Ansi::White),
            muted: Color::Named(Ansi::DarkGray),
            up: Color::Named(Ansi::Green),
            down: Color::Named(Ansi::Red),
            accent: Color::Named(Ansi::LightYellow),
            price: Color::Named(Ansi::Cyan),
            warn: Color::Named(Ansi::Yellow),
            border: Color::Named(Ansi::Blue),
            border_focus: Color::Named(Ansi::LightBlue),
            heading: Color::Named(Ansi::Magenta),
            selection: Color::Named(Ansi::DarkGray),
            dim: Color::Named(Ansi::Black),
        },
    }
}

/// The colour a palette gives a role.
pub open spec fn role_color(p: Palette, r: Role) -> Color {
    match r {
        Role::Bg => p.bg,
        Role::Fg => p.fg,
        Role::Muted => p.muted,
        Role::Up => p.up,
        Role::Down => p.down,
        Role::Accent => p.accent,
        Role::Price => p.price,
        Role::Warn => p.warn,
        Role::Border => p.border,
        Role::BorderFocus => p.border_focus,
        Role::Heading => p.heading,
        Role::Selection => p.selection,
        Role::Dim => p.dim,
    }
}

impl Palette {
    /// The colour of a role.
    pub fn color_of(&self, r: Role) -> (c: Color)
        ensures
            c == role_color(*self, r),
    {
        match r {
            Role::Bg => self.bg,
            Role::Fg => self.fg,
            Role::Muted => self.muted,
            Role::Up => self.up,
            Role::Down => self.down,
            Role::Accent => self.accent,
            Role::Price => self.price,
            Role::Warn => self.warn,
            Role::Border => self.border,
            Role::BorderFocus => self.border_focus,
            Role::Heading => self.heading,
            Role::Selection => self.selection,
            Role::Dim => self.dim,
        }
    }
}

/// The distinctions every palette must keep, in priority order: up from down,
/// the selection from the background, focus from plain borders, muted from
/// ordinary text, and the accent family from each other and from ordinary text.
pub open spec fn keeps_distinctions(p: Palette) -> bool {
    &&& p.up != p.down
    &&& p.selection != p.bg
    &&& p.border != p.border_focus
    &&& p.muted != p.fg
    &&& p.accent != p.warn
    &&& p.accent != p.heading
    &&& p.accent != p.price
    &&& p.warn != p.heading
    &&& p.warn != p.price
    &&& p.heading != p.price
    &&& p.accent != p.fg
    &&& p.warn != p.fg
    &&& p.heading != p.fg
    &&& p.price != p.fg
}

/// Whether a colour is 24-bit RGB.
pub open spec fn is_rgb(c: Color) -> bool {
    c matches Color::Rgb(_, _, _)
}

/// Every palette keeps its distinctions, and the 256-colour and 16-colour
/// fallbacks never hand a limited terminal an RGB colour.
pub proof fn lemma_every_depth_keeps_its_distinctions(d: ColorDepth)
    ensures
        keeps_distinctions(palette_spec(d)),
        d != ColorDepth::Truecolor ==> forall|r: Role| !is_rgb(#[trigger] role_color(palette_spec(d), r)),
{
}

} // verus!
