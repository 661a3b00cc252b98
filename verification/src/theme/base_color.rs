//! The base colors of the built-in look.

use crate::theme::Color;
use vstd::prelude::*;

verus! {

/// The base colors.
#[derive(Debug, Clone, Copy, PartialEq, Eq, Structural)]
pub struct BaseColors {
    pub bg0: Color,
    pub bg1: Color,
    pub bg2: Color,
    pub fg0: Color,
    pub fg1: Color,
    pub red: Color,
    pub green: Color,
    pub blue: Color,
    pub yellow: Color,
    pub orange: Color,
    pub purple: Color,
    pub cyan: Color,
    pub accent0: Color,
}

/// An opaque color.
pub open spec fn rgb(r: u8, g: u8, b: u8) -> Color {
    Color { r, g, b, a: 255 }
}

impl BaseColors {
    pub fn default() -> (colors: BaseColors)
        ensures
            colors == (BaseColors {
                bg0: rgb(29, 32, 33),
                bg1: rgb(40, 40, 40),
                bg2: rgb(60, 60, 60),
                fg0: rgb(235, 219, 178),
                fg1: rgb(255, 255, 255),
                red: rgb(204, 36, 29),
                green: rgb(152, 151, 26),
                blue: rgb(69, 133, 136),
                yellow: rgb(215, 153, 33),
                orange: rgb(214, 93, 14),
                purple: rgb(177, 98, 134),
                cyan: rgb(42, 161, 152),
                accent0: rgb(131, 139, 131),
            }),
    {
        BaseColors {
            bg0: Color::from_rgb(29, 32, 33),
            bg1: Color::from_rgb(40, 40, 40),
            bg2: Color::from_rgb(60, 60, 60),
            fg0: Color::from_rgb(235, 219, 178),
            fg1: Color::from_rgb(255, 255, 255),
            red: Color::from_rgb(204, 36, 29),
            green: Color::from_rgb(152, 151, 26),
            blue: Color::from_rgb(69, 133, 136),
            yellow: Color::from_rgb(215, 153, 33),
            orange: Color::from_rgb(214, 93, 14),
            purple: Color::from_rgb(177, 98, 134),
            cyan: Color::from_rgb(42, 161, 152),
            accent0: Color::from_rgb(131, 139, 131),
        }
    }
}

} // verus!
