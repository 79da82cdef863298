//! RGBA color with 8-bit components and its saturating arithmetic.
use vstd::prelude::*;
use vstd::std_specs::convert::FromSpecImpl;
use vstd::std_specs::ops::{MulSpecImpl, SubSpecImpl};

verus! {

/// RGBA color represented as 8-bit components.
///
/// Colors compare component-wise in the order red, green, blue, alpha.
#[derive(Clone, Copy, Debug, PartialEq, Eq, Structural, PartialOrd, Ord, Hash)]
pub struct Rgba {
    /// Red component, in `[0, 255]`.
    pub r: u8,
    /// Green component, in `[0, 255]`.
    pub g: u8,
    /// Blue component, in `[0, 255]`.
    pub b: u8,
    /// Alpha component, `0` is fully transparent and `255` fully opaque.
    pub a: u8,
}

/// The named colors of the palette (the CSS named colors and their aliases,
/// plus fully transparent black).
#[derive(Clone, Copy, Debug, PartialEq, Eq, Structural, Hash)]
pub enum NamedColor {
    /// `BLACK`: (0, 0, 0).
    Black,
    /// `WHITE`: (255, 255, 255).
    White,
    /// `RED`: (255, 0, 0).
    Red,
    /// `GREEN`: (0, 255, 0).
    Green,
    /// `BLUE`: (0, 0, 255).
    Blue,
    /// `CYAN`: (0, 255, 255).
    Cyan,
    /// `MAGENTA`: (255, 0, 255).
    Magenta,
    /// `YELLOW`: (255, 255, 0).
    Yellow,
    /// `ALICE_BLUE`: (240, 248, 255).
    AliceBlue,
    /// `ANTIQUE_WHITE`: (250, 235, 215).
    AntiqueWhite,
    /// `AQUA`: (0, 255, 255).
    Aqua,
    /// `AQUAMARINE`: (127, 255, 212).
    Aquamarine,
    /// `AZURE`: (240, 255, 255).
    Azure,
    /// `BEIGE`: (245, 245, 220).
    Beige,
    /// `BISQUE`: (255, 228, 196).
    Bisque,
    /// `BLANCHED_ALMOND`: (255, 235, 205).
    BlanchedAlmond,
    /// `BLUE_VIOLET`: (138, 43, 226).
    BlueViolet,
    /// `BROWN`: (165, 42, 42).
    Brown,
    /// `BURLY_WOOD`: (222, 184, 135).
    BurlyWood,
    /// `CADET_BLUE`: (95, 158, 160).
    CadetBlue,
    /// `CHARTREUSE`: (127, 255, 0).
    Chartreuse,
    /// `CHOCOLATE`: (210, 105, 30).
    Chocolate,
    /// `CORAL`: (255, 127, 80).
    Coral,
    /// `CORNFLOWER_BLUE`: (100, 149, 237).
    CornflowerBlue,
    /// `CORNSILK`: (255, 248, 220).
    Cornsilk,
    /// `CRIMSON`: (220, 20, 60).
    Crimson,
    /// `DARK_BLUE`: (0, 0, 139).
    DarkBlue,
    /// `DARK_CYAN`: (0, 139, 139).
    DarkCyan,
    /// `DARK_GOLDENROD`: (184, 134, 11).
    DarkGoldenrod,
    /// `DARK_GRAY`: (169, 169, 169).
    DarkGray,
    /// `DARK_GREEN`: (0, 100, 0).
    DarkGreen,
    /// `DARK_GREY`: (169, 169, 169).
    DarkGrey,
    /// `DARK_KHAKI`: (189, 183, 107).
    DarkKhaki,
    /// `DARK_MAGENTA`: (139, 0, 139).
    DarkMagenta,
    /// `DARK_OLIVE_GREEN`: (85, 107, 47).
    DarkOliveGreen,
    /// `DARK_ORANGE`: (255, 140, 0).
    DarkOrange,
    /// `DARK_ORCHID`: (153, 50, 204).
    DarkOrchid,
    /// `DARK_RED`: (139, 0, 0).
    DarkRed,
    /// `DARK_SALMON`: (233, 150, 122).
    DarkSalmon,
    /// `DARK_SEA_GREEN`: (143, 188, 143).
    DarkSeaGreen,
    /// `DARK_SLATE_BLUE`: (72, 61, 139).
    DarkSlateBlue,
    /// `DARK_SLATE_GRAY`: (47, 79, 79).
    DarkSlateGray,
    /// `DARK_SLATE_GREY`: (47, 79, 79).
    DarkSlateGrey,
    /// `DARK_TURQUOISE`: (0, 206, 209).
    DarkTurquoise,
    /// `DARK_VIOLET`: (148, 0, 211).
    DarkViolet,
    /// `DEEP_PINK`: (255, 20, 147).
    DeepPink,
    /// `DEEP_SKY_BLUE`: (0, 191, 255).
    DeepSkyBlue,
    /// `DIM_GRAY`: (105, 105, 105).
    DimGray,
    /// `DIM_GREY`: (105, 105, 105).
    DimGrey,
    /// `DODGER_BLUE`: (30, 144, 255).
    DodgerBlue,
    /// `FIREBRICK`: (178, 34, 34).
    Firebrick,
    /// `FLORAL_WHITE`: (255, 250, 240).
    FloralWhite,
    /// `FOREST_GREEN`: (34, 139, 34).
    ForestGreen,
    /// `FUCHSIA`: (255, 0, 255).
    Fuchsia,
    /// `GAINSBORO`: (220, 220, 220).
    Gainsboro,
    /// `GHOST_WHITE`: (248, 248, 255).
    GhostWhite,
    /// `GOLD`: (255, 215, 0).
    Gold,
    /// `GOLDENROD`: (218, 165, 32).
    Goldenrod,
    /// `GRAY`: (128, 128, 128).
    Gray,
    /// `GREY`: (128, 128, 128).
    Grey,
    /// `GREEN_YELLOW`: (173, 255, 47).
    GreenYellow,
    /// `HONEYDEW`: (240, 255, 240).
    Honeydew,
    /// `HOT_PINK`: (255, 105, 180).
    HotPink,
    /// `INDIAN_RED`: (205, 92, 92).
    IndianRed,
    /// `INDIGO`: (75, 0, 130).
    Indigo,
    /// `IVORY`: (255, 255, 240).
    Ivory,
    /// `KHAKI`: (240, 230, 140).
    Khaki,
    /// `LAVENDER`: (230, 230, 250).
    Lavender,
    /// `LAVENDER_BLUSH`: (255, 240, 245).
    LavenderBlush,
    /// `LAWN_GREEN`: (124, 252, 0).
    LawnGreen,
    /// `LEMON_CHIFFON`: (255, 250, 205).
    LemonChiffon,
    /// `LIGHT_BLUE`: (173, 216, 230).
    LightBlue,
    /// `LIGHT_CORAL`: (240, 128, 128).
    LightCoral,
    /// `LIGHT_CYAN`: (224, 255, 255).
    LightCyan,
    /// `LIGHT_GOLDENROD_YELLOW`: (250, 250, 210).
    LightGoldenrodYellow,
    /// `LIGHT_GRAY`: (211, 211, 211).
    LightGray,
    /// `LIGHT_GREEN`: (144, 238, 144).
    LightGreen,
    /// `LIGHT_GREY`: (211, 211, 211).
    LightGrey,
    /// `LIGHT_PINK`: (255, 182, 193).
    LightPink,
    /// `LIGHT_SALMON`: (255, 160, 122).
    LightSalmon,
    /// `LIGHT_SEA_GREEN`: (32, 178, 170).
    LightSeaGreen,
    /// `LIGHT_SKY_BLUE`: (135, 206, 250).
    LightSkyBlue,
    /// `LIGHT_SLATE_GRAY`: (119, 136, 153).
    LightSlateGray,
    /// `LIGHT_SLATE_GREY`: (119, 136, 153).
    LightSlateGrey,
    /// `LIGHT_STEEL_BLUE`: (176, 196, 222).
    LightSteelBlue,
    /// `LIGHT_YELLOW`: (255, 255, 224).
    LightYellow,
    /// `LIME`: (0, 255, 0).
    Lime,
    /// `LIME_GREEN`: (50, 205, 50).
    LimeGreen,
    /// `LINEN`: (250, 240, 230).
    Linen,
    /// `MAROON`: (128, 0, 0).
    Maroon,
    /// `MEDIUM_AQUAMARINE`: (102, 205, 170).
    MediumAquamarine,
    /// `MEDIUM_BLUE`: (0, 0, 205).
    MediumBlue,
    /// `MEDIUM_ORCHID`: (186, 85, 211).
    MediumOrchid,
    /// `MEDIUM_PURPLE`: (147, 112, 219).
    MediumPurple,
    /// `MEDIUM_SEA_GREEN`: (60, 179, 113).
    MediumSeaGreen,
    /// `MEDIUM_SLATE_BLUE`: (123, 104, 238).
    MediumSlateBlue,
    /// `MEDIUM_SPRING_GREEN`: (0, 250, 154).
    MediumSpringGreen,
    /// `MEDIUM_TURQUOISE`: (72, 209, 204).
    MediumTurquoise,
    /// `MEDIUM_VIOLET_RED`: (199, 21, 133).
    MediumVioletRed,
    /// `MIDNIGHT_BLUE`: (25, 25, 112).
    MidnightBlue,
    /// `MINT_CREAM`: (245, 255, 250).
    MintCream,
    /// `MISTY_ROSE`: (255, 228, 225).
    MistyRose,
    /// `MOCCASIN`: (255, 228, 181).
    Moccasin,
    /// `NAVAJO_WHITE`: (255, 222, 173).
    NavajoWhite,
    /// `NAVY`: (0, 0, 128).
    Navy,
    /// `OLD_LACE`: (253, 245, 230).
    OldLace,
    /// `OLIVE`: (128, 128, 0).
    Olive,
    /// `OLIVE_DRAB`: (107, 142, 35).
    OliveDrab,
    /// `ORANGE`: (255, 165, 0).
    Orange,
    /// `ORANGE_RED`: (255, 69, 0).
    OrangeRed,
    /// `ORCHID`: (218, 112, 214).
    Orchid,
    /// `PALE_GOLDENROD`: (238, 232, 170).
    PaleGoldenrod,
    /// `PALE_GREEN`: (152, 251, 152).
    PaleGreen,
    /// `PALE_TURQUOISE`: (175, 238, 238).
    PaleTurquoise,
    /// `PALE_VIOLET_RED`: (219, 112, 147).
    PaleVioletRed,
    /// `PAPAYA_WHIP`: (255, 239, 213).
    PapayaWhip,
    /// `PEACH_PUFF`: (255, 218, 185).
    PeachPuff,
    /// `PERU`: (205, 133, 63).
    Peru,
    /// `PINK`: (255, 192, 203).
    Pink,
    /// `PLUM`: (221, 160, 221).
    Plum,
    /// `POWDER_BLUE`: (176, 224, 230).
    PowderBlue,
    /// `PURPLE`: (128, 0, 128).
    Purple,
    /// `REBECCA_PURPLE`: (102, 51, 153).
    RebeccaPurple,
    /// `ROSY_BROWN`: (188, 143, 143).
    RosyBrown,
    /// `ROYAL_BLUE`: (65, 105, 225).
    RoyalBlue,
    /// `SADDLE_BROWN`: (139, 69, 19).
    SaddleBrown,
    /// `SALMON`: (250, 128, 114).
    Salmon,
    /// `SANDY_BROWN`: (244, 164, 96).
    SandyBrown,
    /// `SEA_GREEN`: (46, 139, 87).
    SeaGreen,
    /// `SEA_SHELL`: (255, 245, 238).
    SeaShell,
    /// `SIENNA`: (160, 82, 45).
    Sienna,
    /// `SILVER`: (192, 192, 192).
    Silver,
    /// `SKY_BLUE`: (135, 206, 235).
    SkyBlue,
    /// `SLATE_BLUE`: (106, 90, 205).
    SlateBlue,
    /// `SLATE_GRAY`: (112, 128, 144).
    SlateGray,
    /// `SLATE_GREY`: (112, 128, 144).
    SlateGrey,
    /// `SNOW`: (255, 250, 250).
    Snow,
    /// `SPRING_GREEN`: (0, 255, 127).
    SpringGreen,
    /// `STEEL_BLUE`: (70, 130, 180).
    SteelBlue,
    /// `TAN`: (210, 180, 140).
    Tan,
    /// `TEAL`: (0, 128, 128).
    Teal,
    /// `THISTLE`: (216, 191, 216).
    Thistle,
    /// `TOMATO`: (255, 99, 71).
    Tomato,
    /// `TURQUOISE`: (64, 224, 208).
    Turquoise,
    /// `VIOLET`: (238, 130, 238).
    Violet,
    /// `WEB_GREEN`: (0, 128, 0).
    WebGreen,
    /// `WHEAT`: (245, 222, 179).
    Wheat,
    /// `WHITE_SMOKE`: (245, 245, 245).
    WhiteSmoke,
    /// `YELLOW_GREEN`: (154, 205, 50).
    YellowGreen,
    /// Fully transparent black.
    Transparent,
}

/// Components `(r, g, b, a)` of a named color.
pub open spec fn named_components(name: NamedColor) -> (u8, u8, u8, u8) {
    match name {
        NamedColor::Black => (0, 0, 0, 255),
        NamedColor::White => (255, 255, 255, 255),
        NamedColor::Red => (255, 0, 0, 255),
        NamedColor::Green => (0, 255, 0, 255),
        NamedColor::Blue => (0, 0, 255, 255),
        NamedColor::Cyan => (0, 255, 255, 255),
        NamedColor::Magenta => (255, 0, 255, 255),
        NamedColor::Yellow => (255, 255, 0, 255),
        NamedColor::AliceBlue => (240, 248, 255, 255),
        NamedColor::AntiqueWhite => (250, 235, 215, 255),
        NamedColor::Aqua => (0, 255, 255, 255),
        NamedColor::Aquamarine => (127, 255, 212, 255),
        NamedColor::Azure => (240, 255, 255, 255),
        NamedColor::Beige => (245, 245, 220, 255),
        NamedColor::Bisque => (255, 228, 196, 255),
        NamedColor::BlanchedAlmond => (255, 235, 205, 255),
        NamedColor::BlueViolet => (138, 43, 226, 255),
        NamedColor::Brown => (165, 42, 42, 255),
        NamedColor::BurlyWood => (222, 184, 135, 255),
        NamedColor::CadetBlue => (95, 158, 160, 255),
        NamedColor::Chartreuse => (127, 255, 0, 255),
        NamedColor::Chocolate => (210, 105, 30, 255),
        NamedColor::Coral => (255, 127, 80, 255),
        NamedColor::CornflowerBlue => (100, 149, 237, 255),
        NamedColor::Cornsilk => (255, 248, 220, 255),
        NamedColor::Crimson => (220, 20, 60, 255),
        NamedColor::DarkBlue => (0, 0, 139, 255),
        NamedColor::DarkCyan => (0, 139, 139, 255),
        NamedColor::DarkGoldenrod => (184, 134, 11, 255),
        NamedColor::DarkGray => (169, 169, 169, 255),
        NamedColor::DarkGreen => (0, 100, 0, 255),
        NamedColor::DarkGrey => (169, 169, 169, 255),
        NamedColor::DarkKhaki => (189, 183, 107, 255),
        NamedColor::DarkMagenta => (139, 0, 139, 255),
        NamedColor::DarkOliveGreen => (85, 107, 47, 255),
        NamedColor::DarkOrange => (255, 140, 0, 255),
        NamedColor::DarkOrchid => (153, 50, 204, 255),
        NamedColor::DarkRed => (139, 0, 0, 255),
        NamedColor::DarkSalmon => (233, 150, 122, 255),
        NamedColor::DarkSeaGreen => (143, 188, 143, 255),
        NamedColor::DarkSlateBlue => (72, 61, 139, 255),
        NamedColor::DarkSlateGray => (47, 79, 79, 255),
        NamedColor::DarkSlateGrey => (47, 79, 79, 255),
        NamedColor::DarkTurquoise => (0, 206, 209, 255),
        NamedColor::DarkViolet => (148, 0, 211, 255),
        NamedColor::DeepPink => (255, 20, 147, 255),
        NamedColor::DeepSkyBlue => (0, 191, 255, 255),
        NamedColor::DimGray => (105, 105, 105, 255),
        NamedColor::DimGrey => (105, 105, 105, 255),
        NamedColor::DodgerBlue => (30, 144, 255, 255),
        NamedColor::Firebrick => (178, 34, 34, 255),
        NamedColor::FloralWhite => (255, 250, 240, 255),
        NamedColor::ForestGreen => (34, 139, 34, 255),
        NamedColor::Fuchsia => (255, 0, 255, 255),
        NamedColor::Gainsboro => (220, 220, 220, 255),
        NamedColor::GhostWhite => (248, 248, 255, 255),
        NamedColor::Gold => (255, 215, 0, 255),
        NamedColor::Goldenrod => (218, 165, 32, 255),
        NamedColor::Gray => (128, 128, 128, 255),
        NamedColor::Grey => (128, 128, 128, 255),
        NamedColor::GreenYellow => (173, 255, 47, 255),
        NamedColor::Honeydew => (240, 255, 240, 255),
        NamedColor::HotPink => (255, 105, 180, 255),
        NamedColor::IndianRed => (205, 92, 92, 255),
        NamedColor::Indigo => (75, 0, 130, 255),
        NamedColor::Ivory => (255, 255, 240, 255),
        NamedColor::Khaki => (240, 230, 140, 255),
        NamedColor::Lavender => (230, 230, 250, 255),
        NamedColor::LavenderBlush => (255, 240, 245, 255),
        NamedColor::LawnGreen => (124, 252, 0, 255),
        NamedColor::LemonChiffon => (255, 250, 205, 255),
        NamedColor::LightBlue => (173, 216, 230, 255),
        NamedColor::LightCoral => (240, 128, 128, 255),
        NamedColor::LightCyan => (224, 255, 255, 255),
        NamedColor::LightGoldenrodYellow => (250, 250, 210, 255),
        NamedColor::LightGray => (211, 211, 211, 255),
        NamedColor::LightGreen => (144, 238, 144, 255),
        NamedColor::LightGrey => (211, 211, 211, 255),
        NamedColor::LightPink => (255, 182, 193, 255),
        NamedColor::LightSalmon => (255, 160, 122, 255),
        NamedColor::LightSeaGreen => (32, 178, 170, 255),
        NamedColor::LightSkyBlue => (135, 206, 250, 255),
        NamedColor::LightSlateGray => (119, 136, 153, 255),
        NamedColor::LightSlateGrey => (119, 136, 153, 255),
        NamedColor::LightSteelBlue => (176, 196, 222, 255),
        NamedColor::LightYellow => (255, 255, 224, 255),
        NamedColor::Lime => (0, 255, 0, 255),
        NamedColor::LimeGreen => (50, 205, 50, 255),
        NamedColor::Linen => (250, 240, 230, 255),
        NamedColor::Maroon => (128, 0, 0, 255),
        NamedColor::MediumAquamarine => (102, 205, 170, 255),
        NamedColor::MediumBlue => (0, 0, 205, 255),
        NamedColor::MediumOrchid => (186, 85, 211, 255),
        NamedColor::MediumPurple => (147, 112, 219, 255),
        NamedColor::MediumSeaGreen => (60, 179, 113, 255),
        NamedColor::MediumSlateBlue => (123, 104, 238, 255),
        NamedColor::MediumSpringGreen => (0, 250, 154, 255),
        NamedColor::MediumTurquoise => (72, 209, 204, 255),
        NamedColor::MediumVioletRed => (199, 21, 133, 255),
        NamedColor::MidnightBlue => (25, 25, 112, 255),
        NamedColor::MintCream => (245, 255, 250, 255),
        NamedColor::MistyRose => (255, 228, 225, 255),
        NamedColor::Moccasin => (255, 228, 181, 255),
        NamedColor::NavajoWhite => (255, 222, 173, 255),
        NamedColor::Navy => (0, 0, 128, 255),
        NamedColor::OldLace => (253, 245, 230, 255),
        NamedColor::Olive => (128, 128, 0, 255),
        NamedColor::OliveDrab => (107, 142, 35, 255),
        NamedColor::Orange => (255, 165, 0, 255),
        NamedColor::OrangeRed => (255, 69, 0, 255),
        NamedColor::Orchid => (218, 112, 214, 255),
        NamedColor::PaleGoldenrod => (238, 232, 170, 255),
        NamedColor::PaleGreen => (152, 251, 152, 255),
        NamedColor::PaleTurquoise => (175, 238, 238, 255),
        NamedColor::PaleVioletRed => (219, 112, 147, 255),
        NamedColor::PapayaWhip => (255, 239, 213, 255),
        NamedColor::PeachPuff => (255, 218, 185, 255),
        NamedColor::Peru => (205, 133, 63, 255),
        NamedColor::Pink => (255, 192, 203, 255),
        NamedColor::Plum => (221, 160, 221, 255),
        NamedColor::PowderBlue => (176, 224, 230, 255),
        NamedColor::Purple => (128, 0, 128, 255),
        NamedColor::RebeccaPurple => (102, 51, 153, 255),
        NamedColor::RosyBrown => (188, 143, 143, 255),
        NamedColor::RoyalBlue => (65, 105, 225, 255),
        NamedColor::SaddleBrown => (139, 69, 19, 255),
        NamedColor::Salmon => (250, 128, 114, 255),
        NamedColor::SandyBrown => (244, 164, 96, 255),
        NamedColor::SeaGreen => (46, 139, 87, 255),
        NamedColor::SeaShell => (255, 245, 238, 255),
        NamedColor::Sienna => (160, 82, 45, 255),
        NamedColor::Silver => (192, 192, 192, 255),
        NamedColor::SkyBlue => (135, 206, 235, 255),
        NamedColor::SlateBlue => (106, 90, 205, 255),
        NamedColor::SlateGray => (112, 128, 144, 255),
        NamedColor::SlateGrey => (112, 128, 144, 255),
        NamedColor::Snow => (255, 250, 250, 255),
        NamedColor::SpringGreen => (0, 255, 127, 255),
        NamedColor::SteelBlue => (70, 130, 180, 255),
        NamedColor::Tan => (210, 180, 140, 255),
        NamedColor::Teal => (0, 128, 128, 255),
        NamedColor::Thistle => (216, 191, 216, 255),
        NamedColor::Tomato => (255, 99, 71, 255),
        NamedColor::Turquoise => (64, 224, 208, 255),
        NamedColor::Violet => (238, 130, 238, 255),
        NamedColor::WebGreen => (0, 128, 0, 255),
        NamedColor::Wheat => (245, 222, 179, 255),
        NamedColor::WhiteSmoke => (245, 245, 245, 255),
        NamedColor::YellowGreen => (154, 205, 50, 255),
        NamedColor::Transparent => (0, 0, 0, 0),
    }
}

/// `component * scalar / 255`, the product of two 8-bit fractions of 255.
pub open spec fn scaled_component(component: u8, scalar: u8) -> u8 {
    (component * scalar / 255) as u8
}

/// `a - b`, or `0` where that is negative.
pub open spec fn saturating_sub_u8(a: u8, b: u8) -> u8 {
    if a >= b { (a - b) as u8 } else { 0 }
}

/// `a + b`, or `255` where that is larger.
pub open spec fn saturating_add_u8(a: u8, b: u8) -> u8 {
    if a + b <= 255 { (a + b) as u8 } else { 255 }
}

impl Rgba {
    /// Create an opaque color; alpha is `255`.
    pub fn rgb(r: u8, g: u8, b: u8) -> (c: Self)
        ensures
            c == (Rgba { r, g, b, a: 255 }),
    {
        Rgba { r, g, b, a: 255 }
    }

    /// Create a color from its four components.
    pub fn rgba(r: u8, g: u8, b: u8, a: u8) -> (c: Self)
        ensures
            c == (Rgba { r, g, b, a }),
    {
        Rgba { r, g, b, a }
    }

    /// Create a color from its four components; the same as [`Rgba::rgba`].
    pub fn new(r: u8, g: u8, b: u8, a: u8) -> (c: Self)
        ensures
            c == (Rgba { r, g, b, a }),
    {
        Self::rgba(r, g, b, a)
    }

    /// The color of a palette name.
    pub fn named(name: NamedColor) -> (c: Self)
        ensures
            (c.r, c.g, c.b, c.a) == named_components(name),
    {
        match name {
            NamedColor::Black => Rgba { r: 0, g: 0, b: 0, a: 255 },
            NamedColor::White => Rgba { r: 255, g: 255, b: 255, a: 255 },
            NamedColor::Red => Rgba { r: 255, g: 0, b: 0, a: 255 },
            NamedColor::Green => Rgba { r: 0, g: 255, b: 0, a: 255 },
            NamedColor::Blue => Rgba { r: 0, g: 0, b: 255, a: 255 },
            NamedColor::Cyan => Rgba { r: 0, g: 255, b: 255, a: 255 },
            NamedColor::Magenta => Rgba { r: 255, g: 0, b: 255, a: 255 },
            NamedColor::Yellow => Rgba { r: 255, g: 255, b: 0, a: 255 },
            NamedColor::AliceBlue => Rgba { r: 240, g: 248, b: 255, a: 255 },
            NamedColor::AntiqueWhite => Rgba { r: 250, g: 235, b: 215, a: 255 },
            NamedColor::Aqua => Rgba { r: 0, g: 255, b: 255, a: 255 },
            NamedColor::Aquamarine => Rgba { r: 127, g: 255, b: 212, a: 255 },
            NamedColor::Azure => Rgba { r: 240, g: 255, b: 255, a: 255 },
            NamedColor::Beige => Rgba { r: 245, g: 245, b: 220, a: 255 },
            NamedColor::Bisque => Rgba { r: 255, g: 228, b: 196, a: 255 },
            NamedColor::BlanchedAlmond => Rgba { r: 255, g: 235, b: 205, a: 255 },
            NamedColor::BlueViolet => Rgba { r: 138, g: 43, b: 226, a: 255 },
            NamedColor::Brown => Rgba { r: 165, g: 42, b: 42, a: 255 },
            NamedColor::BurlyWood => Rgba { r: 222, g: 184, b: 135, a: 255 },
            NamedColor::CadetBlue => Rgba { r: 95, g: 158, b: 160, a: 255 },
            NamedColor::Chartreuse => Rgba { r: 127, g: 255, b: 0, a: 255 },
            NamedColor::Chocolate => Rgba { r: 210, g: 105, b: 30, a: 255 },
            NamedColor::Coral => Rgba { r: 255, g: 127, b: 80, a: 255 },
            NamedColor::CornflowerBlue => Rgba { r: 100, g: 149, b: 237, a: 255 },
            NamedColor::Cornsilk => Rgba { r: 255, g: 248, b: 220, a: 255 },
            NamedColor::Crimson => Rgba { r: 220, g: 20, b: 60, a: 255 },
            NamedColor::DarkBlue => Rgba { r: 0, g: 0, b: 139, a: 255 },
            NamedColor::DarkCyan => Rgba { r: 0, g: 139, b: 139, a: 255 },
            NamedColor::DarkGoldenrod => Rgba { r: 184, g: 134, b: 11, a: 255 },
            NamedColor::DarkGray => Rgba { r: 169, g: 169, b: 169, a: 255 },
            NamedColor::DarkGreen => Rgba { r: 0, g: 100, b: 0, a: 255 },
            NamedColor::DarkGrey => Rgba { r: 169, g: 169, b: 169, a: 255 },
            NamedColor::DarkKhaki => Rgba { r: 189, g: 183, b: 107, a: 255 },
            NamedColor::DarkMagenta => Rgba { r: 139, g: 0, b: 139, a: 255 },
            NamedColor::DarkOliveGreen => Rgba { r: 85, g: 107, b: 47, a: 255 },
            NamedColor::DarkOrange => Rgba { r: 255, g: 140, b: 0, a: 255 },
            NamedColor::DarkOrchid => Rgba { r: 153, g: 50, b: 204, a: 255 },
            NamedColor::DarkRed => Rgba { r: 139, g: 0, b: 0, a: 255 },
            NamedColor::DarkSalmon => Rgba { r: 233, g: 150, b: 122, a: 255 },
            NamedColor::DarkSeaGreen => Rgba { r: 143, g: 188, b: 143, a: 255 },
            NamedColor::DarkSlateBlue => Rgba { r: 72, g: 61, b: 139, a: 255 },
            NamedColor::DarkSlateGray => Rgba { r: 47, g: 79, b: 79, a: 255 },
            NamedColor::DarkSlateGrey => Rgba { r: 47, g: 79, b: 79, a: 255 },
            NamedColor::DarkTurquoise => Rgba { r: 0, g: 206, b: 209, a: 255 },
            NamedColor::DarkViolet => Rgba { r: 148, g: 0, b: 211, a: 255 },
            NamedColor::DeepPink => Rgba { r: 255, g: 20, b: 147, a: 255 },
            NamedColor::DeepSkyBlue => Rgba { r: 0, g: 191, b: 255, a: 255 },
            NamedColor::DimGray => Rgba { r: 105, g: 105, b: 105, a: 255 },
            NamedColor::DimGrey => Rgba { r: 105, g: 105, b: 105, a: 255 },
            NamedColor::DodgerBlue => Rgba { r: 30, g: 144, b: 255, a: 255 },
            NamedColor::Firebrick => Rgba { r: 178, g: 34, b: 34, a: 255 },
            NamedColor::FloralWhite => Rgba { r: 255, g: 250, b: 240, a: 255 },
            NamedColor::ForestGreen => Rgba { r: 34, g: 139, b: 34, a: 255 },
            NamedColor::Fuchsia => Rgba { r: 255, g: 0, b: 255, a: 255 },
            NamedColor::Gainsboro => Rgba { r: 220, g: 220, b: 220, a: 255 },
            NamedColor::GhostWhite => Rgba { r: 248, g: 248, b: 255, a: 255 },
            NamedColor::Gold => Rgba { r: 255, g: 215, b: 0, a: 255 },
            NamedColor::Goldenrod => Rgba { r: 218, g: 165, b: 32, a: 255 },
            NamedColor::Gray => Rgba { r: 128, g: 128, b: 128, a: 255 },
            NamedColor::Grey => Rgba { r: 128, g: 128, b: 128, a: 255 },
            NamedColor::GreenYellow => Rgba { r: 173, g: 255, b: 47, a: 255 },
            NamedColor::Honeydew => Rgba { r: 240, g: 255, b: 240, a: 255 },
            NamedColor::HotPink => Rgba { r: 255, g: 105, b: 180, a: 255 },
            NamedColor::IndianRed => Rgba { r: 205, g: 92, b: 92, a: 255 },
            NamedColor::Indigo => Rgba { r: 75, g: 0, b: 130, a: 255 },
            NamedColor::Ivory => Rgba { r: 255, g: 255, b: 240, a: 255 },
            NamedColor::Khaki => Rgba { r: 240, g: 230, b: 140, a: 255 },
            NamedColor::Lavender => Rgba { r: 230, g: 230, b: 250, a: 255 },
            NamedColor::LavenderBlush => Rgba { r: 255, g: 240, b: 245, a: 255 },
            NamedColor::LawnGreen => Rgba { r: 124, g: 252, b: 0, a: 255 },
            NamedColor::LemonChiffon => Rgba { r: 255, g: 250, b: 205, a: 255 },
            NamedColor::LightBlue => Rgba { r: 173, g: 216, b: 230, a: 255 },
            NamedColor::LightCoral => Rgba { r: 240, g: 128, b: 128, a: 255 },
            NamedColor::LightCyan => Rgba { r: 224, g: 255, b: 255, a: 255 },
            NamedColor::LightGoldenrodYellow => Rgba { r: 250, g: 250, b: 210, a: 255 },
            NamedColor::LightGray => Rgba { r: 211, g: 211, b: 211, a: 255 },
            NamedColor::LightGreen => Rgba { r: 144, g: 238, b: 144, a: 255 },
            NamedColor::LightGrey => Rgba { r: 211, g: 211, b: 211, a: 255 },
            NamedColor::LightPink => Rgba { r: 255, g: 182, b: 193, a: 255 },
            NamedColor::LightSalmon => Rgba { r: 255, g: 160, b: 122, a: 255 },
            NamedColor::LightSeaGreen => Rgba { r: 32, g: 178, b: 170, a: 255 },
            NamedColor::LightSkyBlue => Rgba { r: 135, g: 206, b: 250, a: 255 },
            NamedColor::LightSlateGray => Rgba { r: 119, g: 136, b: 153, a: 255 },
            NamedColor::LightSlateGrey => Rgba { r: 119, g: 136, b: 153, a: 255 },
            NamedColor::LightSteelBlue => Rgba { r: 176, g: 196, b: 222, a: 255 },
            NamedColor::LightYellow => Rgba { r: 255, g: 255, b: 224, a: 255 },
            NamedColor::Lime => Rgba { r: 0, g: 255, b: 0, a: 255 },
            NamedColor::LimeGreen => Rgba { r: 50, g: 205, b: 50, a: 255 },
            NamedColor::Linen => Rgba { r: 250, g: 240, b: 230, a: 255 },
            NamedColor::Maroon => Rgba { r: 128, g: 0, b: 0, a: 255 },
            NamedColor::MediumAquamarine => Rgba { r: 102, g: 205, b: 170, a: 255 },
            NamedColor::MediumBlue => Rgba { r: 0, g: 0, b: 205, a: 255 },
            NamedColor::MediumOrchid => Rgba { r: 186, g: 85, b: 211, a: 255 },
            NamedColor::MediumPurple => Rgba { r: 147, g: 112, b: 219, a: 255 },
            NamedColor::MediumSeaGreen => Rgba { r: 60, g: 179, b: 113, a: 255 },
            NamedColor::MediumSlateBlue => Rgba { r: 123, g: 104, b: 238, a: 255 },
            NamedColor::MediumSpringGreen => Rgba { r: 0, g: 250, b: 154, a: 255 },
            NamedColor::MediumTurquoise => Rgba { r: 72, g: 209, b: 204, a: 255 },
            NamedColor::MediumVioletRed => Rgba { r: 199, g: 21, b: 133, a: 255 },
            NamedColor::MidnightBlue => Rgba { r: 25, g: 25, b: 112, a: 255 },
            NamedColor::MintCream => Rgba { r: 245, g: 255, b: 250, a: 255 },
            NamedColor::MistyRose => Rgba { r: 255, g: 228, b: 225, a: 255 },
            NamedColor::Moccasin => Rgba { r: 255, g: 228, b: 181, a: 255 },
            NamedColor::NavajoWhite => Rgba { r: 255, g: 222, b: 173, a: 255 },
            NamedColor::Navy => Rgba { r: 0, g: 0, b: 128, a: 255 },
            NamedColor::OldLace => Rgba { r: 253, g: 245, b: 230, a: 255 },
            NamedColor::Olive => Rgba { r: 128, g: 128, b: 0, a: 255 },
            NamedColor::OliveDrab => Rgba { r: 107, g: 142, b: 35, a: 255 },
            NamedColor::Orange => Rgba { r: 255, g: 165, b: 0, a: 255 },
            NamedColor::OrangeRed => Rgba { r: 255, g: 69, b: 0, a: 255 },
            NamedColor::Orchid => Rgba { r: 218, g: 112, b: 214, a: 255 },
            NamedColor::PaleGoldenrod => Rgba { r: 238, g: 232, b: 170, a: 255 },
            NamedColor::PaleGreen => Rgba { r: 152, g: 251, b: 152, a: 255 },
            NamedColor::PaleTurquoise => Rgba { r: 175, g: 238, b: 238, a: 255 },
            NamedColor::PaleVioletRed => Rgba { r: 219, g: 112, b: 147, a: 255 },
            NamedColor::PapayaWhip => Rgba { r: 255, g: 239, b: 213, a: 255 },
            NamedColor::PeachPuff => Rgba { r: 255, g: 218, b: 185, a: 255 },
            NamedColor::Peru => Rgba { r: 205, g: 133, b: 63, a: 255 },
            NamedColor::Pink => Rgba { r: 255, g: 192, b: 203, a: 255 },
            NamedColor::Plum => Rgba { r: 221, g: 160, b: 221, a: 255 },
            NamedColor::PowderBlue => Rgba { r: 176, g: 224, b: 230, a: 255 },
            NamedColor::Purple => Rgba { r: 128, g: 0, b: 128, a: 255 },
            NamedColor::RebeccaPurple => Rgba { r: 102, g: 51, b: 153, a: 255 },
            NamedColor::RosyBrown => Rgba { r: 188, g: 143, b: 143, a: 255 },
            NamedColor::RoyalBlue => Rgba { r: 65, g: 105, b: 225, a: 255 },
            NamedColor::SaddleBrown => Rgba { r: 139, g: 69, b: 19, a: 255 },
            NamedColor::Salmon => Rgba { r: 250, g: 128, b: 114, a: 255 },
            NamedColor::SandyBrown => Rgba { r: 244, g: 164, b: 96, a: 255 },
            NamedColor::SeaGreen => Rgba { r: 46, g: 139, b: 87, a: 255 },
            NamedColor::SeaShell => Rgba { r: 255, g: 245, b: 238, a: 255 },
            NamedColor::Sienna => Rgba { r: 160, g: 82, b: 45, a: 255 },
            NamedColor::Silver => Rgba { r: 192, g: 192, b: 192, a: 255 },
            NamedColor::SkyBlue => Rgba { r: 135, g: 206, b: 235, a: 255 },
            NamedColor::SlateBlue => Rgba { r: 106, g: 90, b: 205, a: 255 },
            NamedColor::SlateGray => Rgba { r: 112, g: 128, b: 144, a: 255 },
            NamedColor::SlateGrey => Rgba { r: 112, g: 128, b: 144, a: 255 },
            NamedColor::Snow => Rgba { r: 255, g: 250, b: 250, a: 255 },
            NamedColor::SpringGreen => Rgba { r: 0, g: 255, b: 127, a: 255 },
            NamedColor::SteelBlue => Rgba { r: 70, g: 130, b: 180, a: 255 },
            NamedColor::Tan => Rgba { r: 210, g: 180, b: 140, a: 255 },
            NamedColor::Teal => Rgba { r: 0, g: 128, b: 128, a: 255 },
            NamedColor::Thistle => Rgba { r: 216, g: 191, b: 216, a: 255 },
            NamedColor::Tomato => Rgba { r: 255, g: 99, b: 71, a: 255 },
            NamedColor::Turquoise => Rgba { r: 64, g: 224, b: 208, a: 255 },
            NamedColor::Violet => Rgba { r: 238, g: 130, b: 238, a: 255 },
            NamedColor::WebGreen => Rgba { r: 0, g: 128, b: 0, a: 255 },
            NamedColor::Wheat => Rgba { r: 245, g: 222, b: 179, a: 255 },
            NamedColor::WhiteSmoke => Rgba { r: 245, g: 245, b: 245, a: 255 },
            NamedColor::YellowGreen => Rgba { r: 154, g: 205, b: 50, a: 255 },
            NamedColor::Transparent => Rgba { r: 0, g: 0, b: 0, a: 0 },
        }
    }

    /// Scale one component by `scalar / 255`, rounding down.
    pub fn scaled_u8(component: u8, scalar: u8) -> (s: u8)
        ensures
            s == scaled_component(component, scalar),
            s <= component,
    {
        assert((component as int) * (scalar as int) <= 255 * 255) by (nonlinear_arith)
            requires
                component <= 255,
                scalar <= 255,
        ;
        let product: u16 = (component as u16) * (scalar as u16);
        assert(product / 255 <= component) by (nonlinear_arith)
            requires
                product == component * scalar,
                scalar <= 255,
        ;
        (product / 255) as u8
    }
}

impl Default for Rgba {
    /// Transparent black, all components `0`.
    fn default() -> (c: Self)
        ensures
            c == (Rgba { r: 0, g: 0, b: 0, a: 0 }),
    {
        Rgba { r: 0, g: 0, b: 0, a: 0 }
    }
}

impl From<[u8; 3]> for Rgba {
    /// An opaque color from `[r, g, b]`.
    fn from(c: [u8; 3]) -> (res: Self) {
        Rgba { r: c[0], g: c[1], b: c[2], a: 255 }
    }
}

impl FromSpecImpl<[u8; 3]> for Rgba {
    open spec fn obeys_from_spec() -> bool {
        true
    }

    open spec fn from_spec(c: [u8; 3]) -> Rgba {
        Rgba { r: c@[0], g: c@[1], b: c@[2], a: 255 }
    }
}

impl From<[u8; 4]> for Rgba {
    /// A color from `[r, g, b, a]`.
    fn from(c: [u8; 4]) -> (res: Self) {
        Rgba { r: c[0], g: c[1], b: c[2], a: c[3] }
    }
}

impl FromSpecImpl<[u8; 4]> for Rgba {
    open spec fn obeys_from_spec() -> bool {
        true
    }

    open spec fn from_spec(c: [u8; 4]) -> Rgba {
        Rgba { r: c@[0], g: c@[1], b: c@[2], a: c@[3] }
    }
}

impl core::ops::Sub for Rgba {
    type Output = Rgba;

    /// Component-wise saturating subtraction.
    fn sub(self, other: Rgba) -> (res: Rgba) {
        Rgba {
            r: self.r.saturating_sub(other.r),
            g: self.g.saturating_sub(other.g),
            b: self.b.saturating_sub(other.b),
            a: self.a.saturating_sub(other.a),
        }
    }
}

impl SubSpecImpl for Rgba {
    open spec fn obeys_sub_spec() -> bool {
        true
    }

    open spec fn sub_req(self, rhs: Rgba) -> bool {
        true
    }

    open spec fn sub_spec(self, rhs: Rgba) -> Rgba {
        Rgba {
            r: saturating_sub_u8(self.r, rhs.r),
            g: saturating_sub_u8(self.g, rhs.g),
            b: saturating_sub_u8(self.b, rhs.b),
            a: saturating_sub_u8(self.a, rhs.a),
        }
    }
}

impl core::ops::Mul<u8> for Rgba {
    type Output = Rgba;

    /// Scale every component by `scalar / 255`, rounding down.
    fn mul(self, scalar: u8) -> (res: Rgba) {
        Rgba {
            r: Rgba::scaled_u8(self.r, scalar),
            g: Rgba::scaled_u8(self.g, scalar),
            b: Rgba::scaled_u8(self.b, scalar),
            a: Rgba::scaled_u8(self.a, scalar),
        }
    }
}

impl MulSpecImpl<u8> for Rgba {
    open spec fn obeys_mul_spec() -> bool {
        true
    }

    open spec fn mul_req(self, rhs: u8) -> bool {
        true
    }

    open spec fn mul_spec(self, rhs: u8) -> Rgba {
        Rgba {
            r: scaled_component(self.r, rhs),
            g: scaled_component(self.g, rhs),
            b: scaled_component(self.b, rhs),
            a: scaled_component(self.a, rhs),
        }
    }
}

impl core::ops::SubAssign for Rgba {
    /// Component-wise saturating subtraction in place.
    fn sub_assign(&mut self, other: Rgba)
        ensures
            *final(self) == (Rgba {
                r: saturating_sub_u8(old(self).r, other.r),
                g: saturating_sub_u8(old(self).g, other.g),
                b: saturating_sub_u8(old(self).b, other.b),
                a: saturating_sub_u8(old(self).a, other.a),
            }),
    {
        self.r = self.r.saturating_sub(other.r);
        self.g = self.g.saturating_sub(other.g);
        self.b = self.b.saturating_sub(other.b);
        self.a = self.a.saturating_sub(other.a);
    }
}

impl core::ops::AddAssign for Rgba {
    /// Component-wise saturating addition in place.
    fn add_assign(&mut self, other: Rgba)
        ensures
            *final(self) == (Rgba {
                r: saturating_add_u8(old(self).r, other.r),
                g: saturating_add_u8(old(self).g, other.g),
                b: saturating_add_u8(old(self).b, other.b),
                a: saturating_add_u8(old(self).a, other.a),
            }),
    {
        self.r = self.r.saturating_add(other.r);
        self.g = self.g.saturating_add(other.g);
        self.b = self.b.saturating_add(other.b);
        self.a = self.a.saturating_add(other.a);
    }
}

/// Every palette name gives the components the palette documents for it:
/// opaque, with the red, green and blue values listed beside each name, and
/// `Transparent` with all four components `0`.
pub proof fn lemma_named_colors_match_the_palette()
    ensures
        named_components(NamedColor::Black) == (0u8, 0u8, 0u8, 255u8),
        named_components(NamedColor::White) == (255u8, 255u8, 255u8, 255u8),
        named_components(NamedColor::Red) == (255u8, 0u8, 0u8, 255u8),
        named_components(NamedColor::Green) == (0u8, 255u8, 0u8, 255u8),
        named_components(NamedColor::Blue) == (0u8, 0u8, 255u8, 255u8),
        named_components(NamedColor::Cyan) == (0u8, 255u8, 255u8, 255u8),
        named_components(NamedColor::Magenta) == (255u8, 0u8, 255u8, 255u8),
        named_components(NamedColor::Yellow) == (255u8, 255u8, 0u8, 255u8),
        named_components(NamedColor::AliceBlue) == (240u8, 248u8, 255u8, 255u8),
        named_components(NamedColor::AntiqueWhite) == (250u8, 235u8, 215u8, 255u8),
        named_components(NamedColor::Aqua) == (0u8, 255u8, 255u8, 255u8),
        named_components(NamedColor::Aquamarine) == (127u8, 255u8, 212u8, 255u8),
        named_components(NamedColor::Azure) == (240u8, 255u8, 255u8, 255u8),
        named_components(NamedColor::Beige) == (245u8, 245u8, 220u8, 255u8),
        named_components(NamedColor::Bisque) == (255u8, 228u8, 196u8, 255u8),
        named_components(NamedColor::BlanchedAlmond) == (255u8, 235u8, 205u8, 255u8),
        named_components(NamedColor::BlueViolet) == (138u8, 43u8, 226u8, 255u8),
        named_components(NamedColor::Brown) == (165u8, 42u8, 42u8, 255u8),
        named_components(NamedColor::BurlyWood) == (222u8, 184u8, 135u8, 255u8),
        named_components(NamedColor::CadetBlue) == (95u8, 158u8, 160u8, 255u8),
        named_components(NamedColor::Chartreuse) == (127u8, 255u8, 0u8, 255u8),
        named_components(NamedColor::Chocolate) == (210u8, 105u8, 30u8, 255u8),
        named_components(NamedColor::Coral) == (255u8, 127u8, 80u8, 255u8),
        named_components(NamedColor::CornflowerBlue) == (100u8, 149u8, 237u8, 255u8),
        named_components(NamedColor::Cornsilk) == (255u8, 248u8, 220u8, 255u8),
        named_components(NamedColor::Crimson) == (220u8, 20u8, 60u8, 255u8),
        named_components(NamedColor::DarkBlue) == (0u8, 0u8, 139u8, 255u8),
        named_components(NamedColor::DarkCyan) == (0u8, 139u8, 139u8, 255u8),
        named_components(NamedColor::DarkGoldenrod) == (184u8, 134u8, 11u8, 255u8),
        named_components(NamedColor::DarkGray) == (169u8, 169u8, 169u8, 255u8),
        named_components(NamedColor::DarkGreen) == (0u8, 100u8, 0u8, 255u8),
        named_components(NamedColor::DarkGrey) == (169u8, 169u8, 169u8, 255u8),
        named_components(NamedColor::DarkKhaki) == (189u8, 183u8, 107u8, 255u8),
        named_components(NamedColor::DarkMagenta) == (139u8, 0u8, 139u8, 255u8),
        named_components(NamedColor::DarkOliveGreen) == (85u8, 107u8, 47u8, 255u8),
        named_components(NamedColor::DarkOrange) == (255u8, 140u8, 0u8, 255u8),
        named_components(NamedColor::DarkOrchid) == (153u8, 50u8, 204u8, 255u8),
        named_components(NamedColor::DarkRed) == (139u8, 0u8, 0u8, 255u8),
        named_components(NamedColor::DarkSalmon) == (233u8, 150u8, 122u8, 255u8),
        named_components(NamedColor::DarkSeaGreen) == (143u8, 188u8, 143u8, 255u8),
        named_components(NamedColor::DarkSlateBlue) == (72u8, 61u8, 139u8, 255u8),
        named_components(NamedColor::DarkSlateGray) == (47u8, 79u8, 79u8, 255u8),
        named_components(NamedColor::DarkSlateGrey) == (47u8, 79u8, 79u8, 255u8),
        named_components(NamedColor::DarkTurquoise) == (0u8, 206u8, 209u8, 255u8),
        named_components(NamedColor::DarkViolet) == (148u8, 0u8, 211u8, 255u8),
        named_components(NamedColor::DeepPink) == (255u8, 20u8, 147u8, 255u8),
        named_components(NamedColor::DeepSkyBlue) == (0u8, 191u8, 255u8, 255u8),
        named_components(NamedColor::DimGray) == (105u8, 105u8, 105u8, 255u8),
        named_components(NamedColor::DimGrey) == (105u8, 105u8, 105u8, 255u8),
        named_components(NamedColor::DodgerBlue) == (30u8, 144u8, 255u8, 255u8),
        named_components(NamedColor::Firebrick) == (178u8, 34u8, 34u8, 255u8),
        named_components(NamedColor::FloralWhite) == (255u8, 250u8, 240u8, 255u8),
        named_components(NamedColor::ForestGreen) == (34u8, 139u8, 34u8, 255u8),
        named_components(NamedColor::Fuchsia) == (255u8, 0u8, 255u8, 255u8),
        named_components(NamedColor::Gainsboro) == (220u8, 220u8, 220u8, 255u8),
        named_components(NamedColor::GhostWhite) == (248u8, 248u8, 255u8, 255u8),
        named_components(NamedColor::Gold) == (255u8, 215u8, 0u8, 255u8),
        named_components(NamedColor::Goldenrod) == (218u8, 165u8, 32u8, 255u8),
        named_components(NamedColor::Gray) == (128u8, 128u8, 128u8, 255u8),
        named_components(NamedColor::Grey) == (128u8, 128u8, 128u8, 255u8),
        named_components(NamedColor::GreenYellow) == (173u8, 255u8, 47u8, 255u8),
        named_components(NamedColor::Honeydew) == (240u8, 255u8, 240u8, 255u8),
        named_components(NamedColor::HotPink) == (255u8, 105u8, 180u8, 255u8),
        named_components(NamedColor::IndianRed) == (205u8, 92u8, 92u8, 255u8),
        named_components(NamedColor::Indigo) == (75u8, 0u8, 130u8, 255u8),
        named_components(NamedColor::Ivory) == (255u8, 255u8, 240u8, 255u8),
        named_components(NamedColor::Khaki) == (240u8, 230u8, 140u8, 255u8),
        named_components(NamedColor::Lavender) == (230u8, 230u8, 250u8, 255u8),
        named_components(NamedColor::LavenderBlush) == (255u8, 240u8, 245u8, 255u8),
        named_components(NamedColor::LawnGreen) == (124u8, 252u8, 0u8, 255u8),
        named_components(NamedColor::LemonChiffon) == (255u8, 250u8, 205u8, 255u8),
        named_components(NamedColor::LightBlue) == (173u8, 216u8, 230u8, 255u8),
        named_components(NamedColor::LightCoral) == (240u8, 128u8, 128u8, 255u8),
        named_components(NamedColor::LightCyan) == (224u8, 255u8, 255u8, 255u8),
        named_components(NamedColor::LightGoldenrodYellow) == (250u8, 250u8, 210u8, 255u8),
        named_components(NamedColor::LightGray) == (211u8, 211u8, 211u8, 255u8),
        named_components(NamedColor::LightGreen) == (144u8, 238u8, 144u8, 255u8),
        named_components(NamedColor::LightGrey) == (211u8, 211u8, 211u8, 255u8),
        named_components(NamedColor::LightPink) == (255u8, 182u8, 193u8, 255u8),
        named_components(NamedColor::LightSalmon) == (255u8, 160u8, 122u8, 255u8),
        named_components(NamedColor::LightSeaGreen) == (32u8, 178u8, 170u8, 255u8),
        named_components(NamedColor::LightSkyBlue) == (135u8, 206u8, 250u8, 255u8),
        named_components(NamedColor::LightSlateGray) == (119u8, 136u8, 153u8, 255u8),
        named_components(NamedColor::LightSlateGrey) == (119u8, 136u8, 153u8, 255u8),
        named_components(NamedColor::LightSteelBlue) == (176u8, 196u8, 222u8, 255u8),
        named_components(NamedColor::LightYellow) == (255u8, 255u8, 224u8, 255u8),
        named_components(NamedColor::Lime) == (0u8, 255u8, 0u8, 255u8),
        named_components(NamedColor::LimeGreen) == (50u8, 205u8, 50u8, 255u8),
        named_components(NamedColor::Linen) == (250u8, 240u8, 230u8, 255u8),
        named_components(NamedColor::Maroon) == (128u8, 0u8, 0u8, 255u8),
        named_components(NamedColor::MediumAquamarine) == (102u8, 205u8, 170u8, 255u8),
        named_components(NamedColor::MediumBlue) == (0u8, 0u8, 205u8, 255u8),
        named_components(NamedColor::MediumOrchid) == (186u8, 85u8, 211u8, 255u8),
        named_components(NamedColor::MediumPurple) == (147u8, 112u8, 219u8, 255u8),
        named_components(NamedColor::MediumSeaGreen) == (60u8, 179u8, 113u8, 255u8),
        named_components(NamedColor::MediumSlateBlue) == (123u8, 104u8, 238u8, 255u8),
        named_components(NamedColor::MediumSpringGreen) == (0u8, 250u8, 154u8, 255u8),
        named_components(NamedColor::MediumTurquoise) == (72u8, 209u8, 204u8, 255u8),
        named_components(NamedColor::MediumVioletRed) == (199u8, 21u8, 133u8, 255u8),
        named_components(NamedColor::MidnightBlue) == (25u8, 25u8, 112u8, 255u8),
        named_components(NamedColor::MintCream) == (245u8, 255u8, 250u8, 255u8),
        named_components(NamedColor::MistyRose) == (255u8, 228u8, 225u8, 255u8),
        named_components(NamedColor::Moccasin) == (255u8, 228u8, 181u8, 255u8),
        named_components(NamedColor::NavajoWhite) == (255u8, 222u8, 173u8, 255u8),
        named_components(NamedColor::Navy) == (0u8, 0u8, 128u8, 255u8),
        named_components(NamedColor::OldLace) == (253u8, 245u8, 230u8, 255u8),
        named_components(NamedColor::Olive) == (128u8, 128u8, 0u8, 255u8),
        named_components(NamedColor::OliveDrab) == (107u8, 142u8, 35u8, 255u8),
        named_components(NamedColor::Orange) == (255u8, 165u8, 0u8, 255u8),
        named_components(NamedColor::OrangeRed) == (255u8, 69u8, 0u8, 255u8),
        named_components(NamedColor::Orchid) == (218u8, 112u8, 214u8, 255u8),
        named_components(NamedColor::PaleGoldenrod) == (238u8, 232u8, 170u8, 255u8),
        named_components(NamedColor::PaleGreen) == (152u8, 251u8, 152u8, 255u8),
        named_components(NamedColor::PaleTurquoise) == (175u8, 238u8, 238u8, 255u8),
        named_components(NamedColor::PaleVioletRed) == (219u8, 112u8, 147u8, 255u8),
        named_components(NamedColor::PapayaWhip) == (255u8, 239u8, 213u8, 255u8),
        named_components(NamedColor::PeachPuff) == (255u8, 218u8, 185u8, 255u8),
        named_components(NamedColor::Peru) == (205u8, 133u8, 63u8, 255u8),
        named_components(NamedColor::Pink) == (255u8, 192u8, 203u8, 255u8),
        named_components(NamedColor::Plum) == (221u8, 160u8, 221u8, 255u8),
        named_components(NamedColor::PowderBlue) == (176u8, 224u8, 230u8, 255u8),
        named_components(NamedColor::Purple) == (128u8, 0u8, 128u8, 255u8),
        named_components(NamedColor::RebeccaPurple) == (102u8, 51u8, 153u8, 255u8),
        named_components(NamedColor::RosyBrown) == (188u8, 143u8, 143u8, 255u8),
        named_components(NamedColor::RoyalBlue) == (65u8, 105u8, 225u8, 255u8),
        named_components(NamedColor::SaddleBrown) == (139u8, 69u8, 19u8, 255u8),
        named_components(NamedColor::Salmon) == (250u8, 128u8, 114u8, 255u8),
        named_components(NamedColor::SandyBrown) == (244u8, 164u8, 96u8, 255u8),
        named_components(NamedColor::SeaGreen) == (46u8, 139u8, 87u8, 255u8),
        named_components(NamedColor::SeaShell) == (255u8, 245u8, 238u8, 255u8),
        named_components(NamedColor::Sienna) == (160u8, 82u8, 45u8, 255u8),
        named_components(NamedColor::Silver) == (192u8, 192u8, 192u8, 255u8),
        named_components(NamedColor::SkyBlue) == (135u8, 206u8, 235u8, 255u8),
        named_components(NamedColor::SlateBlue) == (106u8, 90u8, 205u8, 255u8),
        named_components(NamedColor::SlateGray) == (112u8, 128u8, 144u8, 255u8),
        named_components(NamedColor::SlateGrey) == (112u8, 128u8, 144u8, 255u8),
        named_components(NamedColor::Snow) == (255u8, 250u8, 250u8, 255u8),
        named_components(NamedColor::SpringGreen) == (0u8, 255u8, 127u8, 255u8),
        named_components(NamedColor::SteelBlue) == (70u8, 130u8, 180u8, 255u8),
        named_components(NamedColor::Tan) == (210u8, 180u8, 140u8, 255u8),
        named_components(NamedColor::Teal) == (0u8, 128u8, 128u8, 255u8),
        named_components(NamedColor::Thistle) == (216u8, 191u8, 216u8, 255u8),
        named_components(NamedColor::Tomato) == (255u8, 99u8, 71u8, 255u8),
        named_components(NamedColor::Turquoise) == (64u8, 224u8, 208u8, 255u8),
        named_components(NamedColor::Violet) == (238u8, 130u8, 238u8, 255u8),
        named_components(NamedColor::WebGreen) == (0u8, 128u8, 0u8, 255u8),
        named_components(NamedColor::Wheat) == (245u8, 222u8, 179u8, 255u8),
        named_components(NamedColor::WhiteSmoke) == (245u8, 245u8, 245u8, 255u8),
        named_components(NamedColor::YellowGreen) == (154u8, 205u8, 50u8, 255u8),
        named_components(NamedColor::Transparent) == (0u8, 0u8, 0u8, 0u8),
{
}

} // verus!
