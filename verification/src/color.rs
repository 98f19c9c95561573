use vstd::prelude::*;

verus! {

/// An RGBA colour with 8 bits per channel.
#[derive(Clone, Copy, Debug, PartialEq, Eq, Structural)]
pub struct Color {
    pub r: u8,
    pub g: u8,
    pub b: u8,
    pub a: u8,
}

/// Whether text or icons drawn on top of `c` should be black rather than
/// white: the sum of the three colour channels exceeds half of its maximum.
pub open spec fn is_light_spec(c: Color) -> bool {
    c.r + c.g + c.b > 382
}

/// Black on light colours, white on dark ones.
pub open spec fn contrast_spec(c: Color) -> Color {
    if is_light_spec(c) {
        Color { r: 0, g: 0, b: 0, a: 255 }
    } else {
        Color { r: 255, g: 255, b: 255, a: 255 }
    }
}

/// The alpha with which an annotation is painted on screen: translucent while
/// it is still being drawn, opaque once committed.
pub open spec fn screen_alpha_spec(is_preview: bool) -> u8 {
    if is_preview { 160 } else { 255 }
}

/// The colour of a toolbar icon: on the button of the active tool, whose fill
/// is the stroke colour, it contrasts with that colour; elsewhere it is white.
pub open spec fn icon_color_spec(is_active: bool, stroke: Color) -> Color {
    if is_active {
        contrast_spec(stroke)
    } else {
        Color { r: 255, g: 255, b: 255, a: 255 }
    }
}

/// The colour an annotation is painted with on screen.
pub fn screen_color(shape_color: Color, is_preview: bool) -> (c: Color)
    ensures
        c == (Color { a: screen_alpha_spec(is_preview), ..shape_color }),
{
    let alpha: u8 = if is_preview { 160 } else { 255 };
    shape_color.with_alpha(alpha)
}

/// The colour of the frame drawn around an annotation that the move tool has
/// grabbed (brighter) or that the pointer rests on.
pub fn highlight_color(is_selected: bool) -> (c: Color)
    ensures
        c == (Color { r: 255, g: 255, b: 255, a: if is_selected { 200u8 } else { 100u8 } }),
{
    let a: u8 = if is_selected { 200 } else { 100 };
    Color::from_rgba_unmultiplied(255, 255, 255, a)
}

/// The colour of a toolbar icon (see [`icon_color_spec`]).
pub fn icon_color(is_active: bool, stroke: Color) -> (c: Color)
    ensures
        c == icon_color_spec(is_active, stroke),
{
    if is_active {
        stroke.contrast()
    } else {
        Color::white()
    }
}

impl Color {
    /// Builds an opaque colour from its three channels.
    pub fn from_rgb(r: u8, g: u8, b: u8) -> (c: Color)
        ensures
            c == (Color { r, g, b, a: 255 }),
    {
        Color { r, g, b, a: 255 }
    }

    /// Builds a colour from its four channels, alpha not premultiplied.
    pub fn from_rgba_unmultiplied(r: u8, g: u8, b: u8, a: u8) -> (c: Color)
        ensures
            c == (Color { r, g, b, a }),
    {
        Color { r, g, b, a }
    }

    /// Opaque black.
    pub fn black() -> (c: Color)
        ensures
            c == (Color { r: 0, g: 0, b: 0, a: 255 }),
    {
        Color::from_rgb(0, 0, 0)
    }

    /// Opaque white.
    pub fn white() -> (c: Color)
        ensures
            c == (Color { r: 255, g: 255, b: 255, a: 255 }),
    {
        Color::from_rgb(255, 255, 255)
    }

    /// Tells whether the colour is light, so that what is drawn on it should be black.
    pub fn is_light(&self) -> (res: bool)
        ensures
            res == is_light_spec(*self),
    {
        (self.r as u32) + (self.g as u32) + (self.b as u32) > 382
    }

    /// The colour for text or an icon drawn on this colour: black on light
    /// colours, white on dark ones.
    pub fn contrast(&self) -> (c: Color)
        ensures
            c == contrast_spec(*self),
    {
        if self.is_light() {
            Color::black()
        } else {
            Color::white()
        }
    }

    /// The same colour with another alpha.
    pub fn with_alpha(&self, a: u8) -> (c: Color)
        ensures
            c == (Color { a, ..*self }),
    {
        Color { r: self.r, g: self.g, b: self.b, a }
    }
}

/// Text and icons on a colour are black when its three channels add up to
/// more than 382, white otherwise; the icon of an inactive tool is always white.
pub proof fn law_contrast_follows_channel_sum(c: Color, is_active: bool)
    ensures
        c.r + c.g + c.b > 382 ==> contrast_spec(c) == (Color { r: 0, g: 0, b: 0, a: 255 }),
        c.r + c.g + c.b <= 382 ==> contrast_spec(c) == (Color { r: 255, g: 255, b: 255, a: 255 }),
        is_active ==> icon_color_spec(is_active, c) == contrast_spec(c),
        !is_active ==> icon_color_spec(is_active, c) == (Color { r: 255, g: 255, b: 255, a: 255 }),
        screen_alpha_spec(true) == 160,
        screen_alpha_spec(false) == 255,
{
}

} // verus!
