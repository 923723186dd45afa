//! Colour profiles: the colours a visualization is drawn with, the
//! built-in presets, and how a profile's colour link is resolved against
//! user and built-in presets.

use vstd::prelude::*;
use vstd::string::*;
use vstd::utf8::*;
use crate::text::{
    chars_of, concat, is_alphanumeric, push_char, string_from_chars, to_lowercase, trim_chars, trimmed,
    unicode_alphanumeric, unicode_lowercase,
};
use crate::text::{ascii_alphanumeric, ascii_lowercase, lemma_trimmed_is_slice, trim_start_index};

verus! {

broadcast use vstd::string::group_string_axioms;

/// A colour with straight (not premultiplied) alpha.
#[derive(Clone, Copy, PartialEq, Eq, Structural, Debug)]
pub struct Color32 {
    pub r: u8,
    pub g: u8,
    pub b: u8,
    pub a: u8,
}

/// The colour with the given components.
pub open spec fn rgba(r: u8, g: u8, b: u8, a: u8) -> Color32 {
    Color32 { r, g, b, a }
}

impl Color32 {
    /// Opaque white.
    pub fn white() -> (c: Color32)
        ensures
            c == rgba(255, 255, 255, 255),
    {
        Color32 { r: 255, g: 255, b: 255, a: 255 }
    }

    /// Opaque black.
    pub fn black() -> (c: Color32)
        ensures
            c == rgba(0, 0, 0, 255),
    {
        Color32 { r: 0, g: 0, b: 0, a: 255 }
    }

    /// Opaque red.
    pub fn red() -> (c: Color32)
        ensures
            c == rgba(255, 0, 0, 255),
    {
        Color32 { r: 255, g: 0, b: 0, a: 255 }
    }

    /// An opaque colour.
    pub fn from_rgb(r: u8, g: u8, b: u8) -> (c: Color32)
        ensures
            c == rgba(r, g, b, 255),
    {
        Color32 { r, g, b, a: 255 }
    }
}

/// How spectrum data is drawn.
#[derive(Clone, Copy, PartialEq, Eq, Structural, Debug)]
pub enum VisualMode {
    SolidBars,
    SegmentedBars,
    LineSpectrum,
    Oscilloscope,
}

/// When the now-playing overlay is shown.
#[derive(Clone, Copy, PartialEq, Eq, Structural, Debug)]
pub enum MediaDisplayMode {
    /// Shown for a while after each track change or interaction.
    FadeOnUpdate,
    AlwaysOn,
    Off,
}

/// The font family of the overlays.
#[derive(Clone, Copy, PartialEq, Eq, Structural, Debug)]
pub enum ThemeFont {
    Standard,
    Monospace,
}

/// A named set of colours.
#[derive(Clone, PartialEq, Debug)]
pub struct ColorProfile {
    pub name: String,
    pub low: Color32,
    pub high: Color32,
    pub peak: Color32,
    pub background: Color32,
    pub text: Color32,
    pub inspector_bg: Color32,
    pub inspector_fg: Color32,
}

/// The plain content of a `ColorProfile`.
pub struct ColorProfileView {
    pub name: Seq<char>,
    pub low: Color32,
    pub high: Color32,
    pub peak: Color32,
    pub background: Color32,
    pub text: Color32,
    pub inspector_bg: Color32,
    pub inspector_fg: Color32,
}

impl View for ColorProfile {
    type V = ColorProfileView;

    open spec fn view(&self) -> ColorProfileView {
        ColorProfileView {
            name: self.name@,
            low: self.low,
            high: self.high,
            peak: self.peak,
            background: self.background,
            text: self.text,
            inspector_bg: self.inspector_bg,
            inspector_fg: self.inspector_fg,
        }
    }
}

/// The profile with the given name and colours.
pub open spec fn palette(
    name: Seq<char>,
    low: Color32,
    high: Color32,
    peak: Color32,
    background: Color32,
    text: Color32,
    inspector_bg: Color32,
    inspector_fg: Color32,
) -> ColorProfileView {
    ColorProfileView { name, low, high, peak, background, text, inspector_bg, inspector_fg }
}

/// The default profile: the classic green-to-yellow "Winamp" look.
pub open spec fn default_color_profile() -> ColorProfileView {
    palette(
        "Winamp"@,
        rgba(50, 205, 50, 255),
        rgba(255, 255, 0, 255),
        rgba(255, 0, 0, 255),
        rgba(0, 0, 0, 255),
        rgba(255, 255, 255, 255),
        rgba(0, 0, 0, 229),
        rgba(255, 255, 255, 255),
    )
}

fn make_profile(
    name: &str,
    low: Color32,
    high: Color32,
    peak: Color32,
    background: Color32,
    text: Color32,
    inspector_bg: Color32,
    inspector_fg: Color32,
) -> (p: ColorProfile)
    ensures
        p@ == palette(name@, low, high, peak, background, text, inspector_bg, inspector_fg),
{
    ColorProfile {
        name: name.to_owned(),
        low,
        high,
        peak,
        background,
        text,
        inspector_bg,
        inspector_fg,
    }
}

impl Default for ColorProfile {
    fn default() -> (p: ColorProfile)
        ensures
            p@ == default_color_profile(),
    {
        make_profile(
            "Winamp",
            Color32 { r: 50, g: 205, b: 50, a: 255 },
            Color32 { r: 255, g: 255, b: 0, a: 255 },
            Color32 { r: 255, g: 0, b: 0, a: 255 },
            Color32 { r: 0, g: 0, b: 0, a: 255 },
            Color32 { r: 255, g: 255, b: 255, a: 255 },
            Color32 { r: 0, g: 0, b: 0, a: 229 },
            Color32 { r: 255, g: 255, b: 255, a: 255 },
        )
    }
}

/// The views of a list of profiles.
pub open spec fn profile_views(ps: Seq<ColorProfile>) -> Seq<ColorProfileView> {
    ps.map_values(|p: ColorProfile| p@)
}

/// The built-in colour presets, in the order in which they are offered.
/// (An alpha of 229 is 90% opacity, 242 is 95%, 204 is 80%, 127 is 50% and
/// 25 is 10%.)
pub open spec fn built_in_color_table() -> Seq<ColorProfileView> {
    seq![
        default_color_profile(),
        palette(
            "Neon Tokyo"@,
            rgba(255, 0, 127, 255),
            rgba(0, 255, 255, 255),
            rgba(255, 255, 0, 255),
            rgba(5, 5, 10, 255),
            rgba(0, 255, 255, 255),
            rgba(0, 0, 0, 229),
            rgba(0, 255, 255, 255),
        ),
        palette(
            "Blueprint (Light)"@,
            rgba(255, 255, 255, 255),
            rgba(200, 200, 255, 255),
            rgba(255, 50, 50, 255),
            rgba(20, 40, 100, 255),
            rgba(255, 255, 255, 255),
            rgba(0, 0, 0, 229),
            rgba(255, 50, 50, 255),
        ),
        palette(
            "Ghost Mode"@,
            rgba(255, 255, 255, 127),
            rgba(255, 255, 255, 255),
            rgba(255, 0, 0, 255),
            rgba(0, 0, 0, 25),
            rgba(200, 200, 200, 255),
            rgba(0, 0, 0, 229),
            rgba(255, 0, 0, 255),
        ),
        palette(
            "Deep Ocean"@,
            rgba(30, 144, 255, 255),
            rgba(0, 255, 255, 255),
            rgba(255, 255, 255, 255),
            rgba(5, 10, 30, 255),
            rgba(200, 240, 255, 255),
            rgba(0, 0, 0, 229),
            rgba(0, 255, 255, 255),
        ),
        palette(
            "Cyberpunk City"@,
            rgba(255, 0, 255, 255),
            rgba(0, 255, 255, 255),
            rgba(255, 255, 0, 255),
            rgba(10, 5, 20, 255),
            rgba(255, 0, 255, 255),
            rgba(0, 0, 0, 229),
            rgba(0, 255, 255, 255),
        ),
        palette(
            "Ocean Blue"@,
            rgba(30, 144, 255, 255),
            rgba(0, 255, 255, 255),
            rgba(255, 255, 255, 255),
            rgba(5, 10, 40, 255),
            rgba(200, 240, 255, 255),
            rgba(0, 0, 30, 229),
            rgba(0, 255, 255, 255),
        ),
        palette(
            "Sunset"@,
            rgba(255, 69, 0, 255),
            rgba(255, 255, 0, 255),
            rgba(255, 255, 255, 255),
            rgba(30, 10, 20, 255),
            rgba(255, 200, 150, 255),
            rgba(20, 5, 10, 229),
            rgba(255, 215, 0, 255),
        ),
        palette(
            "Synthwave"@,
            rgba(255, 0, 255, 255),
            rgba(0, 255, 255, 255),
            rgba(255, 255, 0, 255),
            rgba(15, 0, 25, 255),
            rgba(255, 100, 200, 255),
            rgba(20, 0, 30, 229),
            rgba(0, 255, 255, 255),
        ),
        palette(
            "Spy Black"@,
            rgba(0, 0, 0, 255),
            rgba(47, 79, 79, 255),
            rgba(220, 20, 60, 255),
            rgba(5, 5, 5, 255),
            rgba(200, 200, 200, 255),
            rgba(0, 0, 0, 242),
            rgba(220, 20, 60, 255),
        ),
        palette(
            "Forest Canopy"@,
            rgba(0, 100, 0, 255),
            rgba(0, 255, 0, 255),
            rgba(255, 255, 0, 255),
            rgba(5, 20, 5, 255),
            rgba(150, 255, 150, 255),
            rgba(0, 15, 0, 229),
            rgba(0, 255, 0, 255),
        ),
        palette(
            "Molten Core"@,
            rgba(139, 0, 0, 255),
            rgba(255, 165, 0, 255),
            rgba(255, 255, 255, 255),
            rgba(25, 5, 0, 255),
            rgba(255, 200, 150, 255),
            rgba(20, 0, 0, 229),
            rgba(255, 165, 0, 255),
        ),
        palette(
            "Arctic Night"@,
            rgba(75, 0, 130, 255),
            rgba(173, 216, 230, 255),
            rgba(255, 255, 255, 255),
            rgba(5, 5, 25, 255),
            rgba(220, 240, 255, 255),
            rgba(10, 10, 40, 229),
            rgba(0, 255, 255, 255),
        ),
        palette(
            "Matrix"@,
            rgba(0, 0, 0, 255),
            rgba(0, 255, 0, 255),
            rgba(245, 245, 245, 255),
            rgba(0, 10, 0, 255),
            rgba(0, 255, 0, 255),
            rgba(0, 0, 0, 229),
            rgba(0, 255, 0, 255),
        ),
        palette(
            "Bubblegum"@,
            rgba(255, 20, 147, 255),
            rgba(0, 255, 255, 255),
            rgba(255, 255, 0, 255),
            rgba(40, 20, 40, 255),
            rgba(255, 200, 255, 255),
            rgba(50, 10, 30, 229),
            rgba(0, 255, 255, 255),
        ),
        palette(
            "Monochrome"@,
            rgba(105, 105, 105, 255),
            rgba(211, 211, 211, 255),
            rgba(255, 255, 255, 255),
            rgba(20, 20, 20, 255),
            rgba(220, 220, 220, 255),
            rgba(0, 0, 0, 229),
            rgba(255, 255, 255, 255),
        ),
        palette(
            "Vintage VU"@,
            rgba(184, 134, 11, 255),
            rgba(255, 215, 0, 255),
            rgba(205, 92, 92, 255),
            rgba(35, 25, 15, 255),
            rgba(240, 230, 200, 255),
            rgba(20, 10, 5, 229),
            rgba(255, 215, 0, 255),
        ),
        palette(
            "BeOS Desktop"@,
            rgba(230, 166, 0, 255),
            rgba(255, 242, 153, 255),
            rgba(255, 147, 27, 255),
            rgba(51, 102, 152, 255),
            rgba(220, 220, 220, 255),
            rgba(133, 133, 133, 229),
            rgba(255, 255, 255, 255),
        ),
        palette(
            "Deep Space"@,
            rgba(0, 0, 0, 255),
            rgba(148, 0, 211, 255),
            rgba(0, 255, 255, 255),
            rgba(0, 0, 0, 255),
            rgba(255, 255, 255, 255),
            rgba(10, 0, 20, 229),
            rgba(148, 0, 211, 255),
        ),
        palette(
            "8-Bit Blueberry"@,
            rgba(0, 0, 128, 255),
            rgba(65, 105, 225, 255),
            rgba(255, 255, 255, 255),
            rgba(0, 0, 40, 255),
            rgba(255, 255, 255, 255),
            rgba(0, 0, 60, 229),
            rgba(65, 105, 225, 255),
        ),
        palette(
            "Desert Heat"@,
            rgba(128, 0, 0, 255),
            rgba(255, 69, 0, 255),
            rgba(240, 230, 140, 255),
            rgba(40, 15, 5, 255),
            rgba(255, 255, 200, 255),
            rgba(30, 10, 0, 229),
            rgba(255, 69, 0, 255),
        ),
        palette(
            "Super Mario Bros."@,
            rgba(0, 0, 205, 255),
            rgba(220, 20, 60, 255),
            rgba(255, 215, 0, 255),
            rgba(0, 0, 50, 255),
            rgba(255, 215, 0, 255),
            rgba(50, 0, 0, 229),
            rgba(255, 255, 255, 255),
        ),
        palette(
            "Halo"@,
            rgba(85, 107, 47, 255),
            rgba(218, 165, 32, 255),
            rgba(0, 191, 255, 255),
            rgba(20, 30, 20, 255),
            rgba(0, 200, 255, 255),
            rgba(15, 20, 10, 229),
            rgba(218, 165, 32, 255),
        ),
        palette(
            "Fallout"@,
            rgba(75, 0, 130, 255),
            rgba(0, 255, 255, 255),
            rgba(240, 248, 255, 255),
            rgba(0, 20, 0, 255),
            rgba(0, 255, 0, 255),
            rgba(0, 30, 0, 229),
            rgba(0, 255, 255, 255),
        ),
        palette(
            "Sith Lord"@,
            rgba(20, 20, 20, 255),
            rgba(220, 20, 60, 255),
            rgba(255, 255, 255, 255),
            rgba(10, 5, 5, 255),
            rgba(255, 50, 50, 255),
            rgba(0, 0, 0, 242),
            rgba(255, 0, 0, 255),
        ),
        palette(
            "Neon Genesis Evangelion"@,
            rgba(106, 13, 173, 255),
            rgba(57, 255, 20, 255),
            rgba(255, 140, 0, 255),
            rgba(20, 10, 30, 255),
            rgba(255, 140, 0, 255),
            rgba(30, 10, 40, 229),
            rgba(57, 255, 20, 255),
        ),
        palette(
            "Lava Lamp"@,
            rgba(128, 0, 128, 255),
            rgba(255, 140, 0, 255),
            rgba(255, 255, 100, 255),
            rgba(20, 0, 10, 255),
            rgba(255, 255, 200, 255),
            rgba(20, 0, 20, 229),
            rgba(255, 140, 0, 255),
        ),
        palette(
            "Northern Lights"@,
            rgba(0, 100, 0, 255),
            rgba(0, 255, 127, 255),
            rgba(138, 43, 226, 255),
            rgba(5, 10, 25, 255),
            rgba(100, 255, 200, 255),
            rgba(0, 10, 20, 229),
            rgba(138, 43, 226, 255),
        ),
        palette(
            "Radioactive"@,
            rgba(50, 50, 0, 255),
            rgba(173, 255, 47, 255),
            rgba(255, 0, 0, 255),
            rgba(20, 20, 0, 255),
            rgba(255, 255, 0, 255),
            rgba(30, 30, 0, 229),
            rgba(255, 0, 0, 255),
        ),
        palette(
            "Ice Fire"@,
            rgba(0, 191, 255, 255),
            rgba(255, 165, 0, 255),
            rgba(255, 0, 0, 255),
            rgba(20, 0, 40, 255),
            rgba(255, 255, 255, 255),
            rgba(0, 0, 30, 229),
            rgba(255, 165, 0, 255),
        ),
        palette(
            "Retrowave"@,
            rgba(255, 0, 128, 255),
            rgba(128, 0, 255, 255),
            rgba(0, 255, 255, 255),
            rgba(15, 0, 25, 255),
            rgba(0, 255, 255, 255),
            rgba(20, 0, 40, 229),
            rgba(255, 0, 128, 255),
        ),
        palette(
            "Blood Moon"@,
            rgba(25, 0, 0, 255),
            rgba(139, 0, 0, 255),
            rgba(255, 69, 0, 255),
            rgba(10, 0, 0, 255),
            rgba(255, 100, 100, 255),
            rgba(20, 0, 0, 229),
            rgba(255, 69, 0, 255),
        ),
        palette(
            "Mint Condition"@,
            rgba(0, 100, 100, 255),
            rgba(127, 255, 212, 255),
            rgba(255, 255, 255, 255),
            rgba(0, 30, 30, 255),
            rgba(240, 255, 250, 255),
            rgba(0, 40, 40, 229),
            rgba(255, 255, 255, 255),
        ),
        palette(
            "Golden Hour"@,
            rgba(255, 140, 0, 255),
            rgba(255, 215, 0, 255),
            rgba(255, 250, 205, 255),
            rgba(40, 20, 0, 255),
            rgba(255, 215, 0, 255),
            rgba(30, 15, 0, 229),
            rgba(255, 250, 205, 255),
        ),
        palette(
            "Tequila Sunrise"@,
            rgba(178, 34, 34, 255),
            rgba(255, 165, 0, 255),
            rgba(255, 255, 0, 255),
            rgba(30, 10, 10, 255),
            rgba(255, 255, 200, 255),
            rgba(40, 10, 10, 229),
            rgba(255, 165, 0, 255),
        ),
        palette(
            "Espresso Martini"@,
            rgba(28, 20, 13, 255),
            rgba(160, 82, 45, 255),
            rgba(255, 248, 220, 255),
            rgba(15, 10, 10, 255),
            rgba(210, 180, 140, 255),
            rgba(20, 15, 10, 229),
            rgba(255, 255, 255, 255),
        ),
        palette(
            "Cotton Candy"@,
            rgba(255, 105, 180, 255),
            rgba(135, 206, 250, 255),
            rgba(255, 255, 255, 255),
            rgba(20, 30, 50, 255),
            rgba(255, 192, 203, 255),
            rgba(40, 20, 30, 229),
            rgba(0, 255, 255, 255),
        ),
        palette(
            "Classic Skin"@,
            rgba(0, 200, 0, 255),
            rgba(220, 220, 0, 255),
            rgba(220, 0, 0, 255),
            rgba(10, 10, 10, 255),
            rgba(0, 255, 0, 255),
            rgba(20, 20, 20, 229),
            rgba(0, 255, 0, 255),
        ),
        palette(
            "Phosphor P1"@,
            rgba(0, 50, 0, 255),
            rgba(50, 255, 50, 255),
            rgba(200, 255, 200, 255),
            rgba(0, 5, 0, 255),
            rgba(50, 255, 50, 255),
            rgba(0, 20, 0, 204),
            rgba(50, 255, 50, 255),
        ),
        palette(
            "VFD Amber"@,
            rgba(180, 80, 0, 255),
            rgba(255, 160, 0, 255),
            rgba(255, 220, 100, 255),
            rgba(15, 5, 0, 255),
            rgba(255, 160, 0, 255),
            rgba(20, 10, 0, 229),
            rgba(255, 160, 0, 255),
        ),
        palette(
            "VFD Blue"@,
            rgba(0, 100, 150, 255),
            rgba(0, 200, 255, 255),
            rgba(200, 240, 255, 255),
            rgba(0, 5, 15, 255),
            rgba(0, 200, 255, 255),
            rgba(0, 10, 20, 229),
            rgba(0, 255, 255, 255),
        ),
        palette(
            "Gameboy"@,
            rgba(48, 98, 48, 255),
            rgba(139, 172, 15, 255),
            rgba(155, 188, 15, 255),
            rgba(15, 56, 15, 255),
            rgba(15, 56, 15, 255),
            rgba(139, 172, 15, 229),
            rgba(15, 56, 15, 255),
        ),
    ]
}

/// All built-in colour presets, the default profile first.
pub fn built_in_colors() -> (v: Vec<ColorProfile>)
    ensures
        profile_views(v@) == built_in_color_table(),
{
    let mut v: Vec<ColorProfile> = Vec::new();
    v.push(ColorProfile::default());
    v.push(make_profile(
        "Neon Tokyo",
        Color32 { r: 255, g: 0, b: 127, a: 255 },
        Color32 { r: 0, g: 255, b: 255, a: 255 },
        Color32 { r: 255, g: 255, b: 0, a: 255 },
        Color32 { r: 5, g: 5, b: 10, a: 255 },
        Color32 { r: 0, g: 255, b: 255, a: 255 },
        Color32 { r: 0, g: 0, b: 0, a: 229 },
        Color32 { r: 0, g: 255, b: 255, a: 255 },
    ));
    v.push(make_profile(
        "Blueprint (Light)",
        Color32 { r: 255, g: 255, b: 255, a: 255 },
        Color32 { r: 200, g: 200, b: 255, a: 255 },
        Color32 { r: 255, g: 50, b: 50, a: 255 },
        Color32 { r: 20, g: 40, b: 100, a: 255 },
        Color32 { r: 255, g: 255, b: 255, a: 255 },
        Color32 { r: 0, g: 0, b: 0, a: 229 },
        Color32 { r: 255, g: 50, b: 50, a: 255 },
    ));
    v.push(make_profile(
        "Ghost Mode",
        Color32 { r: 255, g: 255, b: 255, a: 127 },
        Color32 { r: 255, g: 255, b: 255, a: 255 },
        Color32 { r: 255, g: 0, b: 0, a: 255 },
        Color32 { r: 0, g: 0, b: 0, a: 25 },
        Color32 { r: 200, g: 200, b: 200, a: 255 },
        Color32 { r: 0, g: 0, b: 0, a: 229 },
        Color32 { r: 255, g: 0, b: 0, a: 255 },
    ));
    v.push(make_profile(
        "Deep Ocean",
        Color32 { r: 30, g: 144, b: 255, a: 255 },
        Color32 { r: 0, g: 255, b: 255, a: 255 },
        Color32 { r: 255, g: 255, b: 255, a: 255 },
        Color32 { r: 5, g: 10, b: 30, a: 255 },
        Color32 { r: 200, g: 240, b: 255, a: 255 },
        Color32 { r: 0, g: 0, b: 0, a: 229 },
        Color32 { r: 0, g: 255, b: 255, a: 255 },
    ));
    v.push(make_profile(
        "Cyberpunk City",
        Color32 { r: 255, g: 0, b: 255, a: 255 },
        Color32 { r: 0, g: 255, b: 255, a: 255 },
        Color32 { r: 255, g: 255, b: 0, a: 255 },
        Color32 { r: 10, g: 5, b: 20, a: 255 },
        Color32 { r: 255, g: 0, b: 255, a: 255 },
        Color32 { r: 0, g: 0, b: 0, a: 229 },
        Color32 { r: 0, g: 255, b: 255, a: 255 },
    ));
    v.push(make_profile(
        "Ocean Blue",
        Color32 { r: 30, g: 144, b: 255, a: 255 },
        Color32 { r: 0, g: 255, b: 255, a: 255 },
        Color32 { r: 255, g: 255, b: 255, a: 255 },
        Color32 { r: 5, g: 10, b: 40, a: 255 },
        Color32 { r: 200, g: 240, b: 255, a: 255 },
        Color32 { r: 0, g: 0, b: 30, a: 229 },
        Color32 { r: 0, g: 255, b: 255, a: 255 },
    ));
    v.push(make_profile(
        "Sunset",
        Color32 { r: 255, g: 69, b: 0, a: 255 },
        Color32 { r: 255, g: 255, b: 0, a: 255 },
        Color32 { r: 255, g: 255, b: 255, a: 255 },
        Color32 { r: 30, g: 10, b: 20, a: 255 },
        Color32 { r: 255, g: 200, b: 150, a: 255 },
        Color32 { r: 20, g: 5, b: 10, a: 229 },
        Color32 { r: 255, g: 215, b: 0, a: 255 },
    ));
    v.push(make_profile(
        "Synthwave",
        Color32 { r: 255, g: 0, b: 255, a: 255 },
        Color32 { r: 0, g: 255, b: 255, a: 255 },
        Color32 { r: 255, g: 255, b: 0, a: 255 },
        Color32 { r: 15, g: 0, b: 25, a: 255 },
        Color32 { r: 255, g: 100, b: 200, a: 255 },
        Color32 { r: 20, g: 0, b: 30, a: 229 },
        Color32 { r: 0, g: 255, b: 255, a: 255 },
    ));
    v.push(make_profile(
        "Spy Black",
        Color32 { r: 0, g: 0, b: 0, a: 255 },
        Color32 { r: 47, g: 79, b: 79, a: 255 },
        Color32 { r: 220, g: 20, b: 60, a: 255 },
        Color32 { r: 5, g: 5, b: 5, a: 255 },
        Color32 { r: 200, g: 200, b: 200, a: 255 },
        Color32 { r: 0, g: 0, b: 0, a: 242 },
        Color32 { r: 220, g: 20, b: 60, a: 255 },
    ));
    v.push(make_profile(
        "Forest Canopy",
        Color32 { r: 0, g: 100, b: 0, a: 255 },
        Color32 { r: 0, g: 255, b: 0, a: 255 },
        Color32 { r: 255, g: 255, b: 0, a: 255 },
        Color32 { r: 5, g: 20, b: 5, a: 255 },
        Color32 { r: 150, g: 255, b: 150, a: 255 },
        Color32 { r: 0, g: 15, b: 0, a: 229 },
        Color32 { r: 0, g: 255, b: 0, a: 255 },
    ));
    v.push(make_profile(
        "Molten Core",
        Color32 { r: 139, g: 0, b: 0, a: 255 },
        Color32 { r: 255, g: 165, b: 0, a: 255 },
        Color32 { r: 255, g: 255, b: 255, a: 255 },
        Color32 { r: 25, g: 5, b: 0, a: 255 },
        Color32 { r: 255, g: 200, b: 150, a: 255 },
        Color32 { r: 20, g: 0, b: 0, a: 229 },
        Color32 { r: 255, g: 165, b: 0, a: 255 },
    ));
    v.push(make_profile(
        "Arctic Night",
        Color32 { r: 75, g: 0, b: 130, a: 255 },
        Color32 { r: 173, g: 216, b: 230, a: 255 },
        Color32 { r: 255, g: 255, b: 255, a: 255 },
        Color32 { r: 5, g: 5, b: 25, a: 255 },
        Color32 { r: 220, g: 240, b: 255, a: 255 },
        Color32 { r: 10, g: 10, b: 40, a: 229 },
        Color32 { r: 0, g: 255, b: 255, a: 255 },
    ));
    v.push(make_profile(
        "Matrix",
        Color32 { r: 0, g: 0, b: 0, a: 255 },
        Color32 { r: 0, g: 255, b: 0, a: 255 },
        Color32 { r: 245, g: 245, b: 245, a: 255 },
        Color32 { r: 0, g: 10, b: 0, a: 255 },
        Color32 { r: 0, g: 255, b: 0, a: 255 },
        Color32 { r: 0, g: 0, b: 0, a: 229 },
        Color32 { r: 0, g: 255, b: 0, a: 255 },
    ));
    v.push(make_profile(
        "Bubblegum",
        Color32 { r: 255, g: 20, b: 147, a: 255 },
        Color32 { r: 0, g: 255, b: 255, a: 255 },
        Color32 { r: 255, g: 255, b: 0, a: 255 },
        Color32 { r: 40, g: 20, b: 40, a: 255 },
        Color32 { r: 255, g: 200, b: 255, a: 255 },
        Color32 { r: 50, g: 10, b: 30, a: 229 },
        Color32 { r: 0, g: 255, b: 255, a: 255 },
    ));
    v.push(make_profile(
        "Monochrome",
        Color32 { r: 105, g: 105, b: 105, a: 255 },
        Color32 { r: 211, g: 211, b: 211, a: 255 },
        Color32 { r: 255, g: 255, b: 255, a: 255 },
        Color32 { r: 20, g: 20, b: 20, a: 255 },
        Color32 { r: 220, g: 220, b: 220, a: 255 },
        Color32 { r: 0, g: 0, b: 0, a: 229 },
        Color32 { r: 255, g: 255, b: 255, a: 255 },
    ));
    v.push(make_profile(
        "Vintage VU",
        Color32 { r: 184, g: 134, b: 11, a: 255 },
        Color32 { r: 255, g: 215, b: 0, a: 255 },
        Color32 { r: 205, g: 92, b: 92, a: 255 },
        Color32 { r: 35, g: 25, b: 15, a: 255 },
        Color32 { r: 240, g: 230, b: 200, a: 255 },
        Color32 { r: 20, g: 10, b: 5, a: 229 },
        Color32 { r: 255, g: 215, b: 0, a: 255 },
    ));
    v.push(make_profile(
        "BeOS Desktop",
        Color32 { r: 230, g: 166, b: 0, a: 255 },
        Color32 { r: 255, g: 242, b: 153, a: 255 },
        Color32 { r: 255, g: 147, b: 27, a: 255 },
        Color32 { r: 51, g: 102, b: 152, a: 255 },
        Color32 { r: 220, g: 220, b: 220, a: 255 },
        Color32 { r: 133, g: 133, b: 133, a: 229 },
        Color32 { r: 255, g: 255, b: 255, a: 255 },
    ));
    v.push(make_profile(
        "Deep Space",
        Color32 { r: 0, g: 0, b: 0, a: 255 },
        Color32 { r: 148, g: 0, b: 211, a: 255 },
        Color32 { r: 0, g: 255, b: 255, a: 255 },
        Color32 { r: 0, g: 0, b: 0, a: 255 },
        Color32 { r: 255, g: 255, b: 255, a: 255 },
        Color32 { r: 10, g: 0, b: 20, a: 229 },
        Color32 { r: 148, g: 0, b: 211, a: 255 },
    ));
    v.push(make_profile(
        "8-Bit Blueberry",
        Color32 { r: 0, g: 0, b: 128, a: 255 },
        Color32 { r: 65, g: 105, b: 225, a: 255 },
        Color32 { r: 255, g: 255, b: 255, a: 255 },
        Color32 { r: 0, g: 0, b: 40, a: 255 },
        Color32 { r: 255, g: 255, b: 255, a: 255 },
        Color32 { r: 0, g: 0, b: 60, a: 229 },
        Color32 { r: 65, g: 105, b: 225, a: 255 },
    ));
    v.push(make_profile(
        "Desert Heat",
        Color32 { r: 128, g: 0, b: 0, a: 255 },
        Color32 { r: 255, g: 69, b: 0, a: 255 },
        Color32 { r: 240, g: 230, b: 140, a: 255 },
        Color32 { r: 40, g: 15, b: 5, a: 255 },
        Color32 { r: 255, g: 255, b: 200, a: 255 },
        Color32 { r: 30, g: 10, b: 0, a: 229 },
        Color32 { r: 255, g: 69, b: 0, a: 255 },
    ));
    v.push(make_profile(
        "Super Mario Bros.",
        Color32 { r: 0, g: 0, b: 205, a: 255 },
        Color32 { r: 220, g: 20, b: 60, a: 255 },
        Color32 { r: 255, g: 215, b: 0, a: 255 },
        Color32 { r: 0, g: 0, b: 50, a: 255 },
        Color32 { r: 255, g: 215, b: 0, a: 255 },
        Color32 { r: 50, g: 0, b: 0, a: 229 },
        Color32 { r: 255, g: 255, b: 255, a: 255 },
    ));
    v.push(make_profile(
        "Halo",
        Color32 { r: 85, g: 107, b: 47, a: 255 },
        Color32 { r: 218, g: 165, b: 32, a: 255 },
        Color32 { r: 0, g: 191, b: 255, a: 255 },
        Color32 { r: 20, g: 30, b: 20, a: 255 },
        Color32 { r: 0, g: 200, b: 255, a: 255 },
        Color32 { r: 15, g: 20, b: 10, a: 229 },
        Color32 { r: 218, g: 165, b: 32, a: 255 },
    ));
    v.push(make_profile(
        "Fallout",
        Color32 { r: 75, g: 0, b: 130, a: 255 },
        Color32 { r: 0, g: 255, b: 255, a: 255 },
        Color32 { r: 240, g: 248, b: 255, a: 255 },
        Color32 { r: 0, g: 20, b: 0, a: 255 },
        Color32 { r: 0, g: 255, b: 0, a: 255 },
        Color32 { r: 0, g: 30, b: 0, a: 229 },
        Color32 { r: 0, g: 255, b: 255, a: 255 },
    ));
    v.push(make_profile(
        "Sith Lord",
        Color32 { r: 20, g: 20, b: 20, a: 255 },
        Color32 { r: 220, g: 20, b: 60, a: 255 },
        Color32 { r: 255, g: 255, b: 255, a: 255 },
        Color32 { r: 10, g: 5, b: 5, a: 255 },
        Color32 { r: 255, g: 50, b: 50, a: 255 },
        Color32 { r: 0, g: 0, b: 0, a: 242 },
        Color32 { r: 255, g: 0, b: 0, a: 255 },
    ));
    v.push(make_profile(
        "Neon Genesis Evangelion",
        Color32 { r: 106, g: 13, b: 173, a: 255 },
        Color32 { r: 57, g: 255, b: 20, a: 255 },
        Color32 { r: 255, g: 140, b: 0, a: 255 },
        Color32 { r: 20, g: 10, b: 30, a: 255 },
        Color32 { r: 255, g: 140, b: 0, a: 255 },
        Color32 { r: 30, g: 10, b: 40, a: 229 },
        Color32 { r: 57, g: 255, b: 20, a: 255 },
    ));
    v.push(make_profile(
        "Lava Lamp",
        Color32 { r: 128, g: 0, b: 128, a: 255 },
        Color32 { r: 255, g: 140, b: 0, a: 255 },
        Color32 { r: 255, g: 255, b: 100, a: 255 },
        Color32 { r: 20, g: 0, b: 10, a: 255 },
        Color32 { r: 255, g: 255, b: 200, a: 255 },
        Color32 { r: 20, g: 0, b: 20, a: 229 },
        Color32 { r: 255, g: 140, b: 0, a: 255 },
    ));
    v.push(make_profile(
        "Northern Lights",
        Color32 { r: 0, g: 100, b: 0, a: 255 },
        Color32 { r: 0, g: 255, b: 127, a: 255 },
        Color32 { r: 138, g: 43, b: 226, a: 255 },
        Color32 { r: 5, g: 10, b: 25, a: 255 },
        Color32 { r: 100, g: 255, b: 200, a: 255 },
        Color32 { r: 0, g: 10, b: 20, a: 229 },
        Color32 { r: 138, g: 43, b: 226, a: 255 },
    ));
    v.push(make_profile(
        "Radioactive",
        Color32 { r: 50, g: 50, b: 0, a: 255 },
        Color32 { r: 173, g: 255, b: 47, a: 255 },
        Color32 { r: 255, g: 0, b: 0, a: 255 },
        Color32 { r: 20, g: 20, b: 0, a: 255 },
        Color32 { r: 255, g: 255, b: 0, a: 255 },
        Color32 { r: 30, g: 30, b: 0, a: 229 },
        Color32 { r: 255, g: 0, b: 0, a: 255 },
    ));
    v.push(make_profile(
        "Ice Fire",
        Color32 { r: 0, g: 191, b: 255, a: 255 },
        Color32 { r: 255, g: 165, b: 0, a: 255 },
        Color32 { r: 255, g: 0, b: 0, a: 255 },
        Color32 { r: 20, g: 0, b: 40, a: 255 },
        Color32 { r: 255, g: 255, b: 255, a: 255 },
        Color32 { r: 0, g: 0, b: 30, a: 229 },
        Color32 { r: 255, g: 165, b: 0, a: 255 },
    ));
    v.push(make_profile(
        "Retrowave",
        Color32 { r: 255, g: 0, b: 128, a: 255 },
        Color32 { r: 128, g: 0, b: 255, a: 255 },
        Color32 { r: 0, g: 255, b: 255, a: 255 },
        Color32 { r: 15, g: 0, b: 25, a: 255 },
        Color32 { r: 0, g: 255, b: 255, a: 255 },
        Color32 { r: 20, g: 0, b: 40, a: 229 },
        Color32 { r: 255, g: 0, b: 128, a: 255 },
    ));
    v.push(make_profile(
        "Blood Moon",
        Color32 { r: 25, g: 0, b: 0, a: 255 },
        Color32 { r: 139, g: 0, b: 0, a: 255 },
        Color32 { r: 255, g: 69, b: 0, a: 255 },
        Color32 { r: 10, g: 0, b: 0, a: 255 },
        Color32 { r: 255, g: 100, b: 100, a: 255 },
        Color32 { r: 20, g: 0, b: 0, a: 229 },
        Color32 { r: 255, g: 69, b: 0, a: 255 },
    ));
    v.push(make_profile(
        "Mint Condition",
        Color32 { r: 0, g: 100, b: 100, a: 255 },
        Color32 { r: 127, g: 255, b: 212, a: 255 },
        Color32 { r: 255, g: 255, b: 255, a: 255 },
        Color32 { r: 0, g: 30, b: 30, a: 255 },
        Color32 { r: 240, g: 255, b: 250, a: 255 },
        Color32 { r: 0, g: 40, b: 40, a: 229 },
        Color32 { r: 255, g: 255, b: 255, a: 255 },
    ));
    v.push(make_profile(
        "Golden Hour",
        Color32 { r: 255, g: 140, b: 0, a: 255 },
        Color32 { r: 255, g: 215, b: 0, a: 255 },
        Color32 { r: 255, g: 250, b: 205, a: 255 },
        Color32 { r: 40, g: 20, b: 0, a: 255 },
        Color32 { r: 255, g: 215, b: 0, a: 255 },
        Color32 { r: 30, g: 15, b: 0, a: 229 },
        Color32 { r: 255, g: 250, b: 205, a: 255 },
    ));
    v.push(make_profile(
        "Tequila Sunrise",
        Color32 { r: 178, g: 34, b: 34, a: 255 },
        Color32 { r: 255, g: 165, b: 0, a: 255 },
        Color32 { r: 255, g: 255, b: 0, a: 255 },
        Color32 { r: 30, g: 10, b: 10, a: 255 },
        Color32 { r: 255, g: 255, b: 200, a: 255 },
        Color32 { r: 40, g: 10, b: 10, a: 229 },
        Color32 { r: 255, g: 165, b: 0, a: 255 },
    ));
    v.push(make_profile(
        "Espresso Martini",
        Color32 { r: 28, g: 20, b: 13, a: 255 },
        Color32 { r: 160, g: 82, b: 45, a: 255 },
        Color32 { r: 255, g: 248, b: 220, a: 255 },
        Color32 { r: 15, g: 10, b: 10, a: 255 },
        Color32 { r: 210, g: 180, b: 140, a: 255 },
        Color32 { r: 20, g: 15, b: 10, a: 229 },
        Color32 { r: 255, g: 255, b: 255, a: 255 },
    ));
    v.push(make_profile(
        "Cotton Candy",
        Color32 { r: 255, g: 105, b: 180, a: 255 },
        Color32 { r: 135, g: 206, b: 250, a: 255 },
        Color32 { r: 255, g: 255, b: 255, a: 255 },
        Color32 { r: 20, g: 30, b: 50, a: 255 },
        Color32 { r: 255, g: 192, b: 203, a: 255 },
        Color32 { r: 40, g: 20, b: 30, a: 229 },
        Color32 { r: 0, g: 255, b: 255, a: 255 },
    ));
    v.push(make_profile(
        "Classic Skin",
        Color32 { r: 0, g: 200, b: 0, a: 255 },
        Color32 { r: 220, g: 220, b: 0, a: 255 },
        Color32 { r: 220, g: 0, b: 0, a: 255 },
        Color32 { r: 10, g: 10, b: 10, a: 255 },
        Color32 { r: 0, g: 255, b: 0, a: 255 },
        Color32 { r: 20, g: 20, b: 20, a: 229 },
        Color32 { r: 0, g: 255, b: 0, a: 255 },
    ));
    v.push(make_profile(
        "Phosphor P1",
        Color32 { r: 0, g: 50, b: 0, a: 255 },
        Color32 { r: 50, g: 255, b: 50, a: 255 },
        Color32 { r: 200, g: 255, b: 200, a: 255 },
        Color32 { r: 0, g: 5, b: 0, a: 255 },
        Color32 { r: 50, g: 255, b: 50, a: 255 },
        Color32 { r: 0, g: 20, b: 0, a: 204 },
        Color32 { r: 50, g: 255, b: 50, a: 255 },
    ));
    v.push(make_profile(
        "VFD Amber",
        Color32 { r: 180, g: 80, b: 0, a: 255 },
        Color32 { r: 255, g: 160, b: 0, a: 255 },
        Color32 { r: 255, g: 220, b: 100, a: 255 },
        Color32 { r: 15, g: 5, b: 0, a: 255 },
        Color32 { r: 255, g: 160, b: 0, a: 255 },
        Color32 { r: 20, g: 10, b: 0, a: 229 },
        Color32 { r: 255, g: 160, b: 0, a: 255 },
    ));
    v.push(make_profile(
        "VFD Blue",
        Color32 { r: 0, g: 100, b: 150, a: 255 },
        Color32 { r: 0, g: 200, b: 255, a: 255 },
        Color32 { r: 200, g: 240, b: 255, a: 255 },
        Color32 { r: 0, g: 5, b: 15, a: 255 },
        Color32 { r: 0, g: 200, b: 255, a: 255 },
        Color32 { r: 0, g: 10, b: 20, a: 229 },
        Color32 { r: 0, g: 255, b: 255, a: 255 },
    ));
    v.push(make_profile(
        "Gameboy",
        Color32 { r: 48, g: 98, b: 48, a: 255 },
        Color32 { r: 139, g: 172, b: 15, a: 255 },
        Color32 { r: 155, g: 188, b: 15, a: 255 },
        Color32 { r: 15, g: 56, b: 15, a: 255 },
        Color32 { r: 15, g: 56, b: 15, a: 255 },
        Color32 { r: 139, g: 172, b: 15, a: 229 },
        Color32 { r: 15, g: 56, b: 15, a: 255 },
    ));
    assert(profile_views(v@) =~= built_in_color_table());
    v
}

// =====================================================================
// Looking presets up by name
// =====================================================================

/// Position of the first profile named `name`, or the length of the list
/// when there is none.
pub open spec fn name_position(ps: Seq<ColorProfileView>, name: Seq<char>) -> int
    decreases ps.len(),
{
    if ps.len() == 0 {
        0
    } else if ps[0].name == name {
        0
    } else {
        1 + name_position(ps.drop_first(), name)
    }
}

proof fn lemma_name_position_is(ps: Seq<ColorProfileView>, name: Seq<char>, k: int)
    requires
        0 <= k <= ps.len(),
        k < ps.len() ==> ps[k].name == name,
        forall|j: int| 0 <= j < k ==> ps[j].name != name,
    ensures
        name_position(ps, name) == k,
    decreases ps.len(),
{
    if ps.len() > 0 && k > 0 {
        assert(ps[0].name != name);
        assert forall|j: int| 0 <= j < k - 1 implies ps.drop_first()[j].name != name by {
            assert(ps.drop_first()[j] == ps[j + 1]);
        }
        if k < ps.len() {
            assert(ps.drop_first()[k - 1] == ps[k]);
        }
        lemma_name_position_is(ps.drop_first(), name, k - 1);
    }
}

/// The first profile of the list named `name`, if any.
pub open spec fn first_named(ps: Seq<ColorProfileView>, name: Seq<char>) -> Option<ColorProfileView> {
    let k = name_position(ps, name);
    if k < ps.len() {
        Some(ps[k])
    } else {
        None
    }
}

/// Index of the first profile of `ps` named `name`.
pub fn position_of_name(ps: &Vec<ColorProfile>, name: &str) -> (r: Option<usize>)
    ensures
        match r {
            Some(i) => i < ps@.len() && name_position(profile_views(ps@), name@) == i,
            None => name_position(profile_views(ps@), name@) == ps@.len(),
        },
{
    let target = name.to_owned();
    let mut i: usize = 0;
    while i < ps.len()
        invariant
            i <= ps@.len(),
            target@ == name@,
            forall|j: int| 0 <= j < i ==> profile_views(ps@)[j].name != name@,
        decreases ps.len() - i,
    {
        if ps[i].name == target {
            proof {
                lemma_name_position_is(profile_views(ps@), name@, i as int);
            }
            return Some(i);
        }
        i = i + 1;
    }
    proof {
        lemma_name_position_is(profile_views(ps@), name@, i as int);
    }
    None
}

impl ColorProfile {
    /// Whether two profiles have the same name and colours.
    pub fn same_as(&self, other: &ColorProfile) -> (r: bool)
        ensures
            r == (self@ == other@),
    {
        crate::text::same_text(self.name.as_str(), other.name.as_str()) && self.low == other.low
            && self.high == other.high && self.peak == other.peak && self.background
            == other.background && self.text == other.text && self.inspector_bg == other.inspector_bg
            && self.inspector_fg == other.inspector_fg
    }

    /// A copy of the profile.
    pub fn duplicate(&self) -> (r: ColorProfile)
        ensures
            r@ == self@,
    {
        ColorProfile {
            name: self.name.clone(),
            low: self.low,
            high: self.high,
            peak: self.peak,
            background: self.background,
            text: self.text,
            inspector_bg: self.inspector_bg,
            inspector_fg: self.inspector_fg,
        }
    }

    /// The built-in colour presets.
    pub fn built_in() -> (v: Vec<ColorProfile>)
        ensures
            profile_views(v@) == built_in_color_table(),
    {
        built_in_colors()
    }

    /// The first built-in preset with the given name.
    pub fn find_by_name(name: &str) -> (r: Option<ColorProfile>)
        ensures
            match r {
                Some(p) => first_named(built_in_color_table(), name@) == Some(p@),
                None => first_named(built_in_color_table(), name@) is None,
            },
    {
        let mut all = Self::built_in();
        match position_of_name(&all, name) {
            Some(i) => {
                let p = all.swap_remove(i);
                Some(p)
            },
            None => None,
        }
    }
}

// =====================================================================
// Resolving a profile's colours
// =====================================================================

/// A link from a visual profile to its colours.
#[derive(Clone, PartialEq, Debug)]
pub enum ColorRef {
    /// The colours of the preset with this name.
    Preset(String),
    /// Colours of the profile's own.
    Custom(ColorProfile),
}

/// The plain content of a `ColorRef`.
pub enum ColorRefView {
    Preset(Seq<char>),
    Custom(ColorProfileView),
}

impl View for ColorRef {
    type V = ColorRefView;

    open spec fn view(&self) -> ColorRefView {
        match self {
            ColorRef::Preset(name) => ColorRefView::Preset(name@),
            ColorRef::Custom(p) => ColorRefView::Custom(p@),
        }
    }
}

/// `p` with its background replaced by `background`, when there is one.
pub open spec fn with_background(p: ColorProfileView, background: Option<Color32>) -> ColorProfileView {
    match background {
        Some(bg) => ColorProfileView { background: bg, ..p },
        None => p,
    }
}

/// The colours a link resolves to: custom colours as they are; a preset
/// name looked up among the user's presets first, then among the built-in
/// ones, falling back to the default profile; and in every case the
/// background override applied last.
pub open spec fn resolved_colors(
    link: ColorRefView,
    background: Option<Color32>,
    user_presets: Seq<ColorProfileView>,
) -> ColorProfileView {
    let base = match link {
        ColorRefView::Custom(p) => p,
        ColorRefView::Preset(name) => match first_named(user_presets, name) {
            Some(p) => p,
            None => match first_named(built_in_color_table(), name) {
                Some(p) => p,
                None => default_color_profile(),
            },
        },
    };
    with_background(base, background)
}

/// Resolves a visual profile's colour link (with its optional background
/// override) against the user's presets and the built-in ones.
pub fn resolve_colors(color_link: &ColorRef, background: Option<Color32>, user_presets: &Vec<
    ColorProfile,
>) -> (c: ColorProfile)
    ensures
        c@ == resolved_colors(color_link@, background, profile_views(user_presets@)),
{
    let mut c = match color_link {
        ColorRef::Custom(colors) => colors.duplicate(),
        ColorRef::Preset(name) => {
            match position_of_name(user_presets, name.as_str()) {
                Some(i) => user_presets[i].duplicate(),
                None => match ColorProfile::find_by_name(name.as_str()) {
                    Some(p) => p,
                    None => ColorProfile::default(),
                },
            }
        },
    };
    if let Some(bg) = background {
        c.background = bg;
    }
    c
}

/// A user preset shadows a built-in preset of the same name: a link to
/// that name resolves to the user's preset (with the background override
/// applied).
pub proof fn lemma_user_preset_wins(
    name: Seq<char>,
    background: Option<Color32>,
    user_presets: Seq<ColorProfileView>,
    p: ColorProfileView,
)
    requires
        first_named(user_presets, name) == Some(p),
    ensures
        resolved_colors(ColorRefView::Preset(name), background, user_presets) == with_background(
            p,
            background,
        ),
{
}

/// A name that no user preset has but a built-in preset has resolves to
/// that built-in preset (with the background override applied).
pub proof fn lemma_built_in_preset_used(
    name: Seq<char>,
    background: Option<Color32>,
    user_presets: Seq<ColorProfileView>,
    p: ColorProfileView,
)
    requires
        first_named(user_presets, name) is None,
        first_named(built_in_color_table(), name) == Some(p),
    ensures
        resolved_colors(ColorRefView::Preset(name), background, user_presets) == with_background(
            p,
            background,
        ),
        resolved_colors(ColorRefView::Preset(name), background, user_presets).name == name,
{
    lemma_first_named_has_name(built_in_color_table(), name);
}

/// A profile found by name carries that name.
proof fn lemma_first_named_has_name(ps: Seq<ColorProfileView>, name: Seq<char>)
    ensures
        0 <= name_position(ps, name) <= ps.len(),
        first_named(ps, name) matches Some(p) ==> p.name == name,
    decreases ps.len(),
{
    if ps.len() > 0 && ps[0].name != name {
        lemma_first_named_has_name(ps.drop_first(), name);
        let k = name_position(ps.drop_first(), name);
        if k < ps.drop_first().len() {
            assert(ps[k + 1] == ps.drop_first()[k]);
        }
    }
}

/// The built-in "Neon Tokyo" preset is what a link to that name resolves
/// to when the user has no preset of that name: hot-pink lows on a deep
/// void background.
pub proof fn lemma_neon_tokyo_is_built_in(background: Option<Color32>, user_presets: Seq<ColorProfileView>)
    requires
        first_named(user_presets, "Neon Tokyo"@) is None,
    ensures
        resolved_colors(ColorRefView::Preset("Neon Tokyo"@), background, user_presets).low == rgba(
            255,
            0,
            127,
            255,
        ),
        background is None ==> resolved_colors(
            ColorRefView::Preset("Neon Tokyo"@),
            background,
            user_presets,
        ).background == rgba(5, 5, 10, 255),
{
    reveal_strlit("Neon Tokyo");
    reveal_strlit("Winamp");
    let t = built_in_color_table();
    assert(t[0].name == "Winamp"@);
    assert(t[0].name.len() != "Neon Tokyo"@.len());
    assert(t[1].name == "Neon Tokyo"@);
    lemma_name_position_is(t, "Neon Tokyo"@, 1);
    lemma_built_in_preset_used("Neon Tokyo"@, background, user_presets, t[1]);
}

/// A name that neither the user's nor the built-in presets know resolves
/// to the default profile.
pub proof fn lemma_unknown_preset_defaults(
    name: Seq<char>,
    background: Option<Color32>,
    user_presets: Seq<ColorProfileView>,
)
    requires
        first_named(user_presets, name) is None,
        first_named(built_in_color_table(), name) is None,
    ensures
        resolved_colors(ColorRefView::Preset(name), background, user_presets) == with_background(
            default_color_profile(),
            background,
        ),
{
}

/// The background override replaces the background and nothing else:
/// every other colour and the name are those resolved without
/// the override.
pub proof fn lemma_background_override_only_background(
    link: ColorRefView,
    background: Color32,
    user_presets: Seq<ColorProfileView>,
)
    ensures
        resolved_colors(link, Some(background), user_presets).background == background,
        resolved_colors(link, Some(background), user_presets) == (ColorProfileView {
            background,
            ..resolved_colors(link, None, user_presets)
        }),
{
}

// =====================================================================
// User preset lists
// =====================================================================

/// Whether no two profiles of the list share a name.
pub open spec fn names_unique(ps: Seq<ColorProfileView>) -> bool {
    forall|i: int, j: int| 0 <= i < j < ps.len() ==> ps[i].name != ps[j].name
}

/// Adds a preset read from disk unless one with the same name is already
/// loaded; says whether it was added.
pub fn add_loaded_preset(presets: &mut Vec<ColorProfile>, profile: ColorProfile) -> (added: bool)
    ensures
        added == (name_position(profile_views(old(presets)@), profile@.name) == old(presets)@.len()),
        added ==> profile_views(final(presets)@) == profile_views(old(presets)@).push(profile@),
        !added ==> final(presets)@ == old(presets)@,
        names_unique(profile_views(old(presets)@)) ==> names_unique(profile_views(final(presets)@)),
{
    let ghost before = profile_views(presets@);
    match position_of_name(presets, profile.name.as_str()) {
        Some(_) => false,
        None => {
            proof {
                assert forall|j: int| 0 <= j < before.len() implies before[j].name != profile@.name by {
                    if before[j].name == profile@.name {
                        lemma_name_position_le(before, profile@.name, j);
                    }
                }
            }
            presets.push(profile);
            assert(profile_views(presets@) =~= before.push(profile@));
            true
        },
    }
}

proof fn lemma_name_position_le(ps: Seq<ColorProfileView>, name: Seq<char>, j: int)
    requires
        0 <= j < ps.len(),
        ps[j].name == name,
    ensures
        name_position(ps, name) <= j,
    decreases ps.len(),
{
    if ps[0].name != name {
        assert(ps.drop_first()[j - 1] == ps[j]);
        lemma_name_position_le(ps.drop_first(), name, j - 1);
    }
}

/// Stores a preset the user saved: it replaces the first preset with the
/// same name, or is appended when there is none. Afterwards looking the
/// name up finds the stored preset.
pub fn store_preset(presets: &mut Vec<ColorProfile>, profile: ColorProfile)
    ensures
        first_named(profile_views(final(presets)@), profile@.name) == Some(profile@),
        ({
            let k = name_position(profile_views(old(presets)@), profile@.name);
            &&& k < old(presets)@.len() ==> profile_views(final(presets)@) == profile_views(
                old(presets)@,
            ).update(k, profile@)
            &&& k == old(presets)@.len() ==> profile_views(final(presets)@) == profile_views(
                old(presets)@,
            ).push(profile@)
        }),
{
    let ghost before = profile_views(presets@);
    let ghost pv = profile@;
    match position_of_name(presets, profile.name.as_str()) {
        Some(i) => {
            presets.set(i, profile);
            proof {
                let after = profile_views(presets@);
                assert(after =~= before.update(i as int, pv));
                assert forall|j: int| 0 <= j < i implies after[j].name != pv.name by {
                    assert(after[j] == before[j]);
                    if before[j].name == pv.name {
                        lemma_name_position_le(before, pv.name, j);
                    }
                }
                lemma_name_position_is(after, pv.name, i as int);
            }
        },
        None => {
            presets.push(profile);
            proof {
                let after = profile_views(presets@);
                assert(after =~= before.push(pv));
                assert forall|j: int| 0 <= j < before.len() implies after[j].name != pv.name by {
                    assert(after[j] == before[j]);
                    if before[j].name == pv.name {
                        lemma_name_position_le(before, pv.name, j);
                    }
                }
                lemma_name_position_is(after, pv.name, before.len() as int);
            }
        },
    }
}

/// Removes every preset with the given name, keeping the others in order.
/// Afterwards no preset has that name.
pub fn remove_presets_named(presets: &mut Vec<ColorProfile>, name: &str)
    ensures
        profile_views(final(presets)@) == profile_views(old(presets)@).filter(
            |p: ColorProfileView| p.name != name@,
        ),
        first_named(profile_views(final(presets)@), name@) is None,
{
    let ghost before = profile_views(presets@);
    let target = name.to_owned();
    let mut kept: Vec<ColorProfile> = Vec::new();
    let mut i: usize = 0;
    while i < presets.len()
        invariant
            i <= presets@.len(),
            target@ == name@,
            before == profile_views(presets@),
            profile_views(kept@) == before.subrange(0, i as int).filter(
                |p: ColorProfileView| p.name != name@,
            ),
        decreases presets.len() - i,
    {
        let ghost pred = |p: ColorProfileView| p.name != name@;
        proof {
            assert(before.subrange(0, i + 1).drop_last() =~= before.subrange(0, i as int));
            assert(before.subrange(0, i + 1).last() == before[i as int]);
            reveal_with_fuel(Seq::<ColorProfileView>::filter, 1);
            assert(before.subrange(0, i + 1).filter(pred) == (if pred(before[i as int]) {
                before.subrange(0, i as int).filter(pred).push(before[i as int])
            } else {
                before.subrange(0, i as int).filter(pred)
            }));
        }
        if presets[i].name != target {
            let ghost kept_before = kept@;
            kept.push(presets[i].duplicate());
            proof {
                assert(profile_views(kept@) =~= profile_views(kept_before).push(before[i as int]));
            }
        }
        i = i + 1;
    }
    assert(before.subrange(0, before.len() as int) =~= before);
    *presets = kept;
    proof {
        let after = profile_views(presets@);
        assert forall|j: int| 0 <= j < after.len() implies after[j].name != name@ by {
            before.filter_lemma(|p: ColorProfileView| p.name != name@);
        }
        lemma_name_position_is(after, name@, after.len() as int);
    }
}

// =====================================================================
// Preset file names
// =====================================================================

/// How one character of a (trimmed) preset name appears in its file name:
/// a space becomes `_`, alphanumeric characters and `_` are kept, all other
/// characters are dropped.
pub open spec fn filename_chars(c: char) -> Seq<char> {
    if c == ' ' {
        seq!['_']
    } else if unicode_alphanumeric(c) || c == '_' {
        seq![c]
    } else {
        Seq::empty()
    }
}

/// The characters of `s` mapped through `filename_chars`.
pub open spec fn filename_stem(s: Seq<char>) -> Seq<char>
    decreases s.len(),
{
    if s.len() == 0 {
        Seq::empty()
    } else {
        filename_stem(s.drop_last()) + filename_chars(s.last())
    }
}

/// The file name stem of a preset name: trimmed, filtered, lowercased.
pub open spec fn sanitized_filename(name: Seq<char>) -> Seq<char> {
    unicode_lowercase(filename_stem(trimmed(name)))
}

/// How one ASCII character of a (trimmed) preset name appears in its file
/// name: as `filename_chars`, with the ASCII letters and digits as the
/// alphanumeric characters.
pub open spec fn ascii_filename_chars(c: char) -> Seq<char> {
    if c == ' ' {
        seq!['_']
    } else if ascii_alphanumeric(c) || c == '_' {
        seq![c]
    } else {
        Seq::empty()
    }
}

/// The characters of `s` mapped through `ascii_filename_chars`.
pub open spec fn ascii_filename_stem(s: Seq<char>) -> Seq<char>
    decreases s.len(),
{
    if s.len() == 0 {
        Seq::empty()
    } else {
        ascii_filename_stem(s.drop_last()) + ascii_filename_chars(s.last())
    }
}

/// The file name stem of an all-ASCII preset name: trimmed, filtered to
/// ASCII letters, digits, `_` and spaces turned into `_`, and put in ASCII
/// lowercase.
pub open spec fn ascii_sanitized_filename(name: Seq<char>) -> Seq<char> {
    ascii_lowercase(ascii_filename_stem(trimmed(name)))
}

proof fn lemma_ascii_filename_stem_ascii(s: Seq<char>)
    requires
        is_ascii_chars(s),
    ensures
        is_ascii_chars(ascii_filename_stem(s)),
    decreases s.len(),
{
    if s.len() > 0 {
        assert(is_ascii_chars(s.drop_last())) by {
            assert forall|j: int| 0 <= j < s.drop_last().len() implies '\0' <= #[trigger] s.drop_last()[j]
                <= '\u{7f}' by {
                assert(s.drop_last()[j] == s[j]);
            }
        }
        lemma_ascii_filename_stem_ascii(s.drop_last());
        assert(s.last() == s[s.len() - 1]);
        let a = ascii_filename_stem(s.drop_last());
        let b = ascii_filename_chars(s.last());
        assert forall|j: int| 0 <= j < (a + b).len() implies '\0' <= #[trigger] (a + b)[j] <= '\u{7f}' by {
            if j >= a.len() {
                assert((a + b)[j] == b[j - a.len()]);
            }
        }
    }
}

/// Whether a character is an ASCII letter, an ASCII digit, `_` or a space.
pub open spec fn plain_name_char(c: char) -> bool {
    ||| ('0' <= c && c <= '9')
    ||| ('a' <= c && c <= 'z')
    ||| ('A' <= c && c <= 'Z')
    ||| c == '_'
    ||| c == ' '
}

/// In a name made of ASCII letters, digits, `_` and spaces, every letter,
/// digit and `_` is kept in place and every space becomes `_`: nothing is
/// dropped, so names that differ in a digit get different file names.
pub proof fn lemma_filename_stem_keeps_plain_chars(s: Seq<char>)
    requires
        forall|i: int| 0 <= i < s.len() ==> plain_name_char(#[trigger] s[i]),
    ensures
        ascii_filename_stem(s).len() == s.len(),
        forall|i: int|
            0 <= i < s.len() ==> #[trigger] ascii_filename_stem(s)[i] == (if s[i] == ' ' {
                '_'
            } else {
                s[i]
            }),
    decreases s.len(),
{
    if s.len() > 0 {
        let d = s.drop_last();
        assert forall|i: int| 0 <= i < d.len() implies plain_name_char(#[trigger] d[i]) by {
            assert(d[i] == s[i]);
        }
        lemma_filename_stem_keeps_plain_chars(d);
        let c = s.last();
        assert(plain_name_char(s[s.len() - 1]));
        assert(ascii_filename_chars(c) == seq![if c == ' ' { '_' } else { c }]);
        let r = ascii_filename_stem(s);
        assert forall|i: int| 0 <= i < s.len() implies #[trigger] r[i] == (if s[i] == ' ' {
            '_'
        } else {
            s[i]
        }) by {
            if i < d.len() {
                assert(r[i] == ascii_filename_stem(d)[i]);
                assert(s[i] == d[i]);
            }
        }
    }
}

/// The file name stem of a name made of ASCII letters, digits, `_` and
/// inner spaces is the name in ASCII lowercase with each space turned
/// into `_` (so "Preset 2" is stored as "preset_2").
pub proof fn lemma_plain_name_file_stem(name: Seq<char>)
    requires
        forall|i: int| 0 <= i < name.len() ==> plain_name_char(#[trigger] name[i]),
        name.len() > 0 ==> name[0] != ' ' && name[name.len() - 1] != ' ',
    ensures
        ascii_sanitized_filename(name) == ascii_lowercase(
            name.map_values(|c: char| if c == ' ' { '_' } else { c }),
        ),
{
    crate::text::lemma_trimmed_unchanged(name);
    lemma_filename_stem_keeps_plain_chars(name);
    assert(ascii_filename_stem(name) =~= name.map_values(|c: char| if c == ' ' { '_' } else { c }));
}

/// The file name stem under which a preset is stored: the name trimmed,
/// spaces turned into `_`, every other character that is neither
/// alphanumeric nor `_` dropped, and the result lowercased.
pub fn sanitize_filename(name: &str) -> (r: String)
    ensures
        r@ == sanitized_filename(name@),
        is_ascii_chars(name@) ==> r@ == ascii_sanitized_filename(name@),
{
    let chars = chars_of(name);
    let t = trim_chars(chars.as_slice());
    proof {
        if is_ascii_chars(name@) {
            lemma_trimmed_is_slice(name@);
            assert forall|j: int| 0 <= j < t@.len() implies '\0' <= #[trigger] t@[j] <= '\u{7f}' by {
                assert(t@[j] == name@[trim_start_index(name@) + j]);
            }
        }
    }
    let mut stem = String::new();
    let mut i: usize = 0;
    while i < t.len()
        invariant
            i <= t@.len(),
            stem@ == filename_stem(t@.subrange(0, i as int)),
            is_ascii_chars(t@) ==> stem@ == ascii_filename_stem(t@.subrange(0, i as int)),
        decreases t.len() - i,
    {
        let c = t[i];
        proof {
            assert(t@.subrange(0, i + 1).drop_last() =~= t@.subrange(0, i as int));
        }
        if c == ' ' {
            push_char(&mut stem, '_');
        } else if is_alphanumeric(c) || c == '_' {
            push_char(&mut stem, c);
        }
        proof {
            assert(stem@ =~= filename_stem(t@.subrange(0, i + 1)));
            if is_ascii_chars(t@) {
                assert(t@.subrange(0, i + 1).last() == t@[i as int]);
                assert(stem@ =~= ascii_filename_stem(t@.subrange(0, i + 1)));
            }
        }
        i = i + 1;
    }
    assert(t@.subrange(0, t@.len() as int) =~= t@);
    proof {
        if is_ascii_chars(t@) {
            lemma_ascii_filename_stem_ascii(t@);
        }
    }
    to_lowercase(stem.as_str())
}

/// The file name of a stored preset: its sanitized name with a `.json`
/// extension.
pub fn preset_file_name(name: &str) -> (r: String)
    ensures
        r@ == sanitized_filename(name@) + ".json"@,
{
    let stem = sanitize_filename(name);
    concat(stem.as_str(), ".json")
}

} // verus!
