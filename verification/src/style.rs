//! Colours, fonts and the styles that say how a shape or a text is drawn.
//!
//! A font or an image is known here by its number in the table of assets that
//! the owner of the display keeps, together with the measures that layout needs.

use vstd::prelude::*;
use crate::geometry::{Point, Rectangle, Size};

verus! {

/// A colour of 16 bits: five of red, six of green, five of blue, red highest.
#[derive(Clone, Copy, Debug, PartialEq, Eq, Structural)]
pub struct Rgb565 {
    pub raw: u16,
}

impl Rgb565 {
    pub fn black() -> (color: Rgb565)
        ensures
            color.raw == 0x0000,
    {
        Rgb565 { raw: 0x0000 }
    }

    pub fn white() -> (color: Rgb565)
        ensures
            color.raw == 0xFFFF,
    {
        Rgb565 { raw: 0xFFFF }
    }
}

/// On which side of a shape's outline its stroke is drawn.
#[derive(Clone, Copy, Debug, PartialEq, Eq, Structural)]
pub enum StrokeAlignment {
    Inside,
    Center,
    Outside,
}

/// How a shape is filled and outlined.
#[derive(Clone, Copy, Debug, PartialEq, Eq, Structural)]
pub struct PrimitiveStyle {
    pub fill_color: Option<Rgb565>,
    pub stroke_color: Option<Rgb565>,
    pub stroke_width: u32,
    pub stroke_alignment: StrokeAlignment,
}

impl PrimitiveStyle {
    /// The style that fills a shape with `color` and draws no outline.
    pub open spec fn filled(color: Rgb565) -> PrimitiveStyle {
        PrimitiveStyle {
            fill_color: Some(color),
            stroke_color: None,
            stroke_width: 0,
            stroke_alignment: StrokeAlignment::Center,
        }
    }

    /// The style that fills a shape with `color` and draws no outline.
    pub fn with_fill(color: Rgb565) -> (style: PrimitiveStyle)
        ensures
            style == Self::filled(color),
    {
        PrimitiveStyle {
            fill_color: Some(color),
            stroke_color: None,
            stroke_width: 0,
            stroke_alignment: StrokeAlignment::Center,
        }
    }
}

/// Where a line of text lies relative to its position, horizontally.
#[derive(Clone, Copy, Debug, PartialEq, Eq, Structural)]
pub enum Alignment {
    Left,
    Center,
    Right,
}

/// Where a line of text lies relative to its position, vertically.
#[derive(Clone, Copy, Debug, PartialEq, Eq, Structural)]
pub enum Baseline {
    Top,
    Bottom,
    Middle,
    Alphabetic,
}

/// The distance between two lines of a text.
#[derive(Clone, Copy, Debug, PartialEq, Eq, Structural)]
pub enum LineHeight {
    Pixels(u32),
    Percent(u32),
}

/// How the lines of a text are laid out.
#[derive(Clone, Copy, Debug, PartialEq, Eq, Structural)]
pub struct TextStyle {
    pub alignment: Alignment,
    pub baseline: Baseline,
    pub line_height: LineHeight,
}

impl TextStyle {
    /// The layout with the given alignment and baseline and lines of the
    /// font's own height.
    pub open spec fn aligned(alignment: Alignment, baseline: Baseline) -> TextStyle {
        TextStyle { alignment, baseline, line_height: LineHeight::Percent(100) }
    }

    /// The layout with the given alignment and baseline and lines of the
    /// font's own height.
    pub fn new(alignment: Alignment, baseline: Baseline) -> (style: TextStyle)
        ensures
            style == Self::aligned(alignment, baseline),
    {
        TextStyle { alignment, baseline, line_height: LineHeight::Percent(100) }
    }
}

/// A font whose characters all have the same size.
#[derive(Clone, Copy, Debug, PartialEq, Eq, Structural)]
pub struct MonoFont {
    /// The font's number in the table of assets.
    pub id: u16,
    pub character_size: Size,
}

/// Text in a fixed-width font.
#[derive(Clone, Copy, Debug, PartialEq, Eq, Structural)]
pub struct MonoTextStyle {
    pub font: MonoFont,
    pub text_color: Option<Rgb565>,
    pub background_color: Option<Rgb565>,
}

impl MonoTextStyle {
    /// Text in `font` and `text_color` on a transparent background.
    pub open spec fn colored(font: MonoFont, text_color: Rgb565) -> MonoTextStyle {
        MonoTextStyle { font, text_color: Some(text_color), background_color: None }
    }

    /// Text in `font` and `text_color` on a transparent background.
    pub fn new(font: MonoFont, text_color: Rgb565) -> (style: MonoTextStyle)
        ensures
            style == Self::colored(font, text_color),
    {
        MonoTextStyle { font, text_color: Some(text_color), background_color: None }
    }
}

/// Digits drawn as the seven segments of a numeric display.
#[derive(Clone, Copy, Debug, PartialEq, Eq, Structural)]
pub struct SevenSegmentStyle {
    pub digit_size: Size,
    pub digit_spacing: u32,
    pub segment_width: u32,
    pub segment_color: Option<Rgb565>,
    pub inactive_segment_color: Option<Rgb565>,
}

/// How the characters of a text are drawn.
#[derive(Clone, Copy, Debug, PartialEq, Eq, Structural)]
pub enum CharacterStyle {
    Mono(MonoTextStyle),
    SevenSegment(SevenSegmentStyle),
}

impl CharacterStyle {
    /// The height of one line of text in this style.
    pub open spec fn glyph_height(self) -> u32 {
        match self {
            CharacterStyle::Mono(style) => style.font.character_size.height,
            CharacterStyle::SevenSegment(style) => style.digit_size.height,
        }
    }

    /// The height of one line of text in this style.
    pub fn text_height(&self) -> (height: u32)
        ensures
            height == self.glyph_height(),
    {
        match self {
            CharacterStyle::Mono(style) => style.font.character_size.height,
            CharacterStyle::SevenSegment(style) => style.digit_size.height,
        }
    }
}

/// A picture of fixed size.
#[derive(Clone, Copy, Debug, PartialEq, Eq, Structural)]
pub struct ImageDrawable {
    /// The picture's number in the table of assets.
    pub id: u16,
    pub size: Size,
}

/// A picture and the place of its top left corner.
#[derive(Clone, Copy, Debug, PartialEq, Eq, Structural)]
pub struct Image {
    pub image_drawable: ImageDrawable,
    pub offset: Point,
}

impl Image {
    pub fn new(image_drawable: ImageDrawable, offset: Point) -> (image: Image)
        ensures
            image == (Image { image_drawable, offset }),
    {
        Image { image_drawable, offset }
    }

    /// The area that the picture covers.
    pub open spec fn area(self) -> Rectangle {
        Rectangle { top_left: self.offset, size: self.image_drawable.size }
    }

    /// The area that the picture covers.
    pub fn bounding_box(&self) -> (area: Rectangle)
        ensures
            area == self.area(),
    {
        Rectangle { top_left: self.offset, size: self.image_drawable.size }
    }
}

/// The six colours that the widgets of one screen share.
#[derive(Clone, Copy, Debug, PartialEq, Eq, Structural)]
pub struct Theme {
    pub button_background_color: Rgb565,
    pub button_foreground_color: Rgb565,
    pub screen_background_color: Rgb565,
    pub text_color_primary: Rgb565,
    pub highlight_color: Rgb565,
    pub error_color: Rgb565,
}

} // verus!
