use vstd::prelude::*;

verus! {

/// Identifier of a client attached to a session; ids start at 1.
pub type ClientId = u16;

/// Whether a theme is meant for a light or a dark background.
#[derive(Clone, Copy, Debug, PartialEq, Eq, Structural, Hash)]
pub enum ThemeHue {
    Light,
    Dark,
}

impl Default for ThemeHue {
    fn default() -> (r: ThemeHue)
        ensures
            r == ThemeHue::Dark,
    {
        ThemeHue::Dark
    }
}

/// A terminal color: a 24-bit RGB triple or an index into the 256-color table.
#[derive(Clone, Copy, Debug, Eq, Hash)]
pub enum PaletteColor {
    Rgb((u8, u8, u8)),
    EightBit(u8),
}

impl PartialEq for PaletteColor {
    fn eq(&self, o: &PaletteColor) -> (r: bool) {
        match (self, o) {
            (PaletteColor::Rgb(a), PaletteColor::Rgb(b)) => a.0 == b.0 && a.1 == b.1 && a.2 == b.2,
            (PaletteColor::EightBit(a), PaletteColor::EightBit(b)) => *a == *b,
            _ => false,
        }
    }
}

impl vstd::std_specs::cmp::PartialEqSpecImpl for PaletteColor {
    open spec fn obeys_eq_spec() -> bool {
        true
    }

    open spec fn eq_spec(&self, o: &PaletteColor) -> bool {
        *self == *o
    }
}

impl Default for PaletteColor {
    fn default() -> (r: PaletteColor)
        ensures
            r == PaletteColor::EightBit(0),
    {
        PaletteColor::EightBit(0)
    }
}

/// Where a palette came from.
#[derive(Clone, Copy, Debug, PartialEq, Eq, Structural, Hash)]
pub enum PaletteSource {
    Default,
    Xresources,
}

impl Default for PaletteSource {
    fn default() -> (r: PaletteSource)
        ensures
            r == PaletteSource::Default,
    {
        PaletteSource::Default
    }
}

/// The named colors of a theme.
#[derive(Clone, Copy, Debug, Eq, Hash)]
pub struct Palette {
    pub source: PaletteSource,
    pub theme_hue: ThemeHue,
    pub fg: PaletteColor,
    pub bg: PaletteColor,
    pub black: PaletteColor,
    pub red: PaletteColor,
    pub green: PaletteColor,
    pub yellow: PaletteColor,
    pub blue: PaletteColor,
    pub magenta: PaletteColor,
    pub cyan: PaletteColor,
    pub white: PaletteColor,
    pub orange: PaletteColor,
    pub gray: PaletteColor,
    pub purple: PaletteColor,
    pub gold: PaletteColor,
    pub silver: PaletteColor,
    pub pink: PaletteColor,
    pub brown: PaletteColor,
}

impl PartialEq for Palette {
    fn eq(&self, o: &Palette) -> (r: bool) {
        self.source == o.source && self.theme_hue == o.theme_hue && self.fg == o.fg && self.bg == o.bg && self.black == o.black && self.red == o.red && self.green == o.green && self.yellow == o.yellow && self.blue == o.blue && self.magenta == o.magenta && self.cyan == o.cyan && self.white == o.white && self.orange == o.orange && self.gray == o.gray && self.purple == o.purple && self.gold == o.gold && self.silver == o.silver && self.pink == o.pink && self.brown == o.brown
    }
}

impl vstd::std_specs::cmp::PartialEqSpecImpl for Palette {
    open spec fn obeys_eq_spec() -> bool {
        true
    }

    open spec fn eq_spec(&self, o: &Palette) -> bool {
        *self == *o
    }
}

/// The palette in which every field holds its own type's default.
pub open spec fn default_palette() -> Palette {
    let c = PaletteColor::EightBit(0);
    Palette {
        source: PaletteSource::Default,
        theme_hue: ThemeHue::Dark,
        fg: c,
        bg: c,
        black: c,
        red: c,
        green: c,
        yellow: c,
        blue: c,
        magenta: c,
        cyan: c,
        white: c,
        orange: c,
        gray: c,
        purple: c,
        gold: c,
        silver: c,
        pink: c,
        brown: c,
    }
}

impl Default for Palette {
    fn default() -> (r: Palette)
        ensures
            r == default_palette(),
    {
        Palette {
            source: PaletteSource::default(),
            theme_hue: ThemeHue::default(),
            fg: PaletteColor::default(),
            bg: PaletteColor::default(),
            black: PaletteColor::default(),
            red: PaletteColor::default(),
            green: PaletteColor::default(),
            yellow: PaletteColor::default(),
            blue: PaletteColor::default(),
            magenta: PaletteColor::default(),
            cyan: PaletteColor::default(),
            white: PaletteColor::default(),
            orange: PaletteColor::default(),
            gray: PaletteColor::default(),
            purple: PaletteColor::default(),
            gold: PaletteColor::default(),
            silver: PaletteColor::default(),
            pink: PaletteColor::default(),
            brown: PaletteColor::default(),
        }
    }
}

/// A palette together with the frame style.
#[derive(Clone, Copy, Debug, Eq, Hash)]
pub struct Style {
    pub colors: Palette,
    pub rounded_corners: bool,
}

impl PartialEq for Style {
    fn eq(&self, o: &Style) -> (r: bool) {
        self.colors == o.colors && self.rounded_corners == o.rounded_corners
    }
}

impl vstd::std_specs::cmp::PartialEqSpecImpl for Style {
    open spec fn obeys_eq_spec() -> bool {
        true
    }

    open spec fn eq_spec(&self, o: &Style) -> bool {
        *self == *o
    }
}

impl Default for Style {
    fn default() -> (r: Style)
        ensures
            r == (Style { colors: default_palette(), rounded_corners: false }),
    {
        Style { colors: Palette::default(), rounded_corners: false }
    }
}

/// The primary color assigned to a client id, if the id has one.
pub open spec fn client_primary(id: ClientId, p: Palette) -> Option<PaletteColor> {
    match id {
        1 => Some(p.magenta),
        2 => Some(p.blue),
        3 => Some(p.purple),
        4 => Some(p.yellow),
        5 => Some(p.cyan),
        6 => Some(p.gold),
        7 => Some(p.red),
        8 => Some(p.silver),
        9 => Some(p.pink),
        10 => Some(p.brown),
        _ => None,
    }
}

/// The (primary, secondary) colors of a client: ids 1 to 10 each have a primary
/// color of the palette and black as secondary; any other id has none.
pub fn client_id_to_colors(client_id: ClientId, colors: Palette) -> (r: Option<(PaletteColor, PaletteColor)>)
    ensures
        (1 <= client_id <= 10) == r.is_some(),
        r.is_some() ==> r == Some((client_primary(client_id, colors).unwrap(), colors.black)),
        client_id == 1 ==> r == Some((colors.magenta, colors.black)),
        client_id == 10 ==> r == Some((colors.brown, colors.black)),
{
    match client_id {
        1 => Some((colors.magenta, colors.black)),
        2 => Some((colors.blue, colors.black)),
        3 => Some((colors.purple, colors.black)),
        4 => Some((colors.yellow, colors.black)),
        5 => Some((colors.cyan, colors.black)),
        6 => Some((colors.gold, colors.black)),
        7 => Some((colors.red, colors.black)),
        8 => Some((colors.silver, colors.black)),
        9 => Some((colors.pink, colors.black)),
        10 => Some((colors.brown, colors.black)),
        _ => None,
    }
}

/// The colors used when a session has a single client.
pub fn single_client_color(colors: Palette) -> (r: (PaletteColor, PaletteColor))
    ensures
        r == (colors.green, colors.black),
{
    (colors.green, colors.black)
}

} // verus!
