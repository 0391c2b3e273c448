//! The button, the progress and the label widgets.

use vstd::prelude::*;
use vstd::string::StringExecFns;
use crate::display::{optional, required, DrawCommand, DrawCommandView, DrawList, DrawOpView};
use crate::geometry::{saturate, saturate_i64, shrink, Point, Rectangle, Size};
use crate::graphics::{text_on_background, text_command, truncated, GraphicUtils};
use crate::text::{widget_buffer, widget_capacity, widget_str, widget_text};
use crate::style::{
    Alignment,
    Baseline,
    CharacterStyle,
    Image,
    ImageDrawable,
    MonoTextStyle,
    PrimitiveStyle,
    Rgb565,
    TextStyle,
    Theme,
};

verus! {

/// A picture on a rounded background, 90 by 50 pixels.
pub struct Button {
    image: ImageDrawable,
    pos: Point,
    size: Size,
}

/// The state of a [`Button`].
pub struct ButtonView {
    pub image: ImageDrawable,
    pub pos: Point,
    pub size: Size,
}

impl ButtonView {
    /// The top left corner of the rounded background: five pixels inside the
    /// button's area on either axis.
    pub open spec fn visible_pos(self) -> Point {
        self.pos.moved(5, 5)
    }

    /// The size of the rounded background: ten pixels less than the button's
    /// on either axis.
    pub open spec fn visible_size(self) -> Size {
        Size {
            width: shrink(self.size.width as int, 10) as u32,
            height: shrink(self.size.height as int, 10) as u32,
        }
    }

    /// Where the picture is drawn: in the middle of the rounded background.
    pub open spec fn image_pos(self) -> Point {
        self.visible_pos().moved(
            shrink(self.visible_size().width as int, self.image.size.width as int) / 2,
            shrink(self.visible_size().height as int, self.image.size.height as int) / 2,
        )
    }

    /// The two operations that draw the button: the rounded background with
    /// corners of ten pixels, and the picture in its middle.
    pub open spec fn drawing(self, background_style: PrimitiveStyle) -> Seq<DrawOpView> {
        seq![
            required(
                DrawCommandView::RoundedRectangle {
                    area: Rectangle { top_left: self.visible_pos(), size: self.visible_size() },
                    corner_radius: Size { width: 10, height: 10 },
                    style: background_style,
                },
            ),
            required(
                DrawCommandView::Image {
                    image: Image { image_drawable: self.image, offset: self.image_pos() },
                },
            ),
        ]
    }
}

impl View for Button {
    type V = ButtonView;

    closed spec fn view(&self) -> ButtonView {
        ButtonView { image: self.image, pos: self.pos, size: self.size }
    }
}

impl Button {
    /// A button with the given picture at the given place.
    pub fn new(image_drawable: ImageDrawable, position: Point) -> (button: Button)
        ensures
            button@ == (ButtonView {
                image: image_drawable,
                pos: position,
                size: Size { width: 90, height: 50 },
            }),
    {
        Button { image: image_drawable, pos: position, size: GraphicUtils::get_button_size() }
    }

    /// Replaces the picture.
    pub fn set_image_drawable(&mut self, image_drawable: ImageDrawable)
        ensures
            final(self)@ == (ButtonView { image: image_drawable, ..old(self)@ }),
    {
        self.image = image_drawable;
    }

    /// Records the drawing of the button on a background of the given style.
    pub fn draw(&self, display: &mut DrawList, background_style: PrimitiveStyle)
        ensures
            final(display)@ == old(display)@ + self@.drawing(background_style),
    {
        let visible_pos = self.pos.offset(5, 5);
        let visible_size = Size::new(
            self.size.width.saturating_sub(10),
            self.size.height.saturating_sub(10),
        );
        display.push(
            DrawCommand::RoundedRectangle {
                area: Rectangle::new(visible_pos, visible_size),
                corner_radius: Size::new(10, 10),
                style: background_style,
            },
        );
        let image_margin_x = visible_size.width.saturating_sub(self.image.size.width) / 2;
        let image_margin_y = visible_size.height.saturating_sub(self.image.size.height) / 2;
        let image = Image::new(
            self.image,
            visible_pos.offset(image_margin_x as i64, image_margin_y as i64),
        );
        display.push(DrawCommand::Image { image });
    }

    /// The button's area.
    pub fn get_bounding_box(&self) -> (area: Rectangle)
        ensures
            area == (Rectangle { top_left: self@.pos, size: self@.size }),
    {
        Rectangle::new(self.pos, self.size)
    }
}

/// A picture with a line of text below it, on a filled area.
pub struct Progress {
    image_drawable: ImageDrawable,
    text: heapless::String<256>,
    pos: Point,
    size: Size,
    background_color: Rgb565,
    foreground_color: Rgb565,
    character_style: MonoTextStyle,
}

/// The state of a [`Progress`].
pub struct ProgressView {
    pub image_drawable: ImageDrawable,
    pub text: Seq<char>,
    pub pos: Point,
    pub size: Size,
    pub background_color: Rgb565,
    pub foreground_color: Rgb565,
    pub character_style: MonoTextStyle,
}

impl ProgressView {
    /// The height of a line of the text.
    pub open spec fn text_height(self) -> u32 {
        self.character_style.font.character_size.height
    }

    /// Where the picture is drawn: in the middle of the width, and above the
    /// middle of the height by the height of the text.
    pub open spec fn image_pos(self) -> Point {
        self.pos.moved(
            shrink(self.size.width as int, self.image_drawable.size.width as int) / 2,
            shrink(
                shrink(self.size.height as int, self.image_drawable.size.height as int) / 2,
                self.text_height() as int,
            ),
        )
    }

    /// Where the text is drawn: centred on the middle of the width, and below
    /// the picture by the height of the text, counted from the top of the area.
    pub open spec fn text_pos(self) -> Point {
        Point {
            x: saturate(self.pos.x + self.size.width / 2),
            y: saturate(
                self.pos.y + self.image_pos().y + self.image_drawable.size.height
                    + self.text_height(),
            ),
        }
    }

    /// The three operations that draw the widget: its area filled in the
    /// background colour, the picture, and the text. A failure to draw the text
    /// is dropped.
    pub open spec fn drawing(self) -> Seq<DrawOpView> {
        seq![
            required(
                DrawCommandView::Rectangle {
                    area: Rectangle { top_left: self.pos, size: self.size },
                    style: PrimitiveStyle::filled(self.background_color),
                },
            ),
            required(
                DrawCommandView::Image {
                    image: Image { image_drawable: self.image_drawable, offset: self.image_pos() },
                },
            ),
            optional(
                text_command(
                    self.text_pos(),
                    CharacterStyle::Mono(self.character_style),
                    TextStyle::aligned(Alignment::Center, Baseline::Top),
                    self.text,
                ),
            ),
        ]
    }
}

impl View for Progress {
    type V = ProgressView;

    closed spec fn view(&self) -> ProgressView {
        ProgressView {
            image_drawable: self.image_drawable,
            text: widget_text(self.text),
            pos: self.pos,
            size: self.size,
            background_color: self.background_color,
            foreground_color: self.foreground_color,
            character_style: self.character_style,
        }
    }
}

impl Progress {
    /// A progress widget with the given picture and text. Its foreground is
    /// the theme's primary text colour. The text has 256 bytes at most.
    pub fn new(
        image_drawable: ImageDrawable,
        text: &str,
        position: Point,
        size: Size,
        background_color: Rgb565,
        character_style: MonoTextStyle,
        theme: &Theme,
    ) -> (progress: Progress)
        requires
            text.len() <= widget_capacity(),
        ensures
            progress@ == (ProgressView {
                image_drawable,
                text: text@,
                pos: position,
                size,
                background_color,
                foreground_color: theme.text_color_primary,
                character_style,
            }),
    {
        Progress {
            image_drawable,
            text: widget_buffer(text),
            pos: position,
            size,
            background_color,
            foreground_color: theme.text_color_primary,
            character_style,
        }
    }

    fn get_background_style(&self) -> (style: PrimitiveStyle)
        ensures
            style == PrimitiveStyle::filled(self@.background_color),
    {
        PrimitiveStyle::with_fill(self.background_color)
    }

    fn get_text_style(&self) -> (style: TextStyle)
        ensures
            style == TextStyle::aligned(Alignment::Center, Baseline::Top),
    {
        TextStyle::new(Alignment::Center, Baseline::Top)
    }

    /// Replaces the text and records the drawing of the widget. The text has
    /// 256 bytes at most.
    pub fn update_text(&mut self, display: &mut DrawList, text: &str)
        requires
            text.len() <= widget_capacity(),
        ensures
            final(self)@ == (ProgressView { text: text@, ..old(self)@ }),
            final(display)@ == old(display)@ + final(self)@.drawing(),
    {
        self.text = widget_buffer(text);
        self.draw(display)
    }

    /// Records the drawing of the widget.
    pub fn draw(&self, display: &mut DrawList)
        ensures
            final(display)@ == old(display)@ + self@.drawing(),
    {
        display.push(
            DrawCommand::Rectangle {
                area: Rectangle::new(self.pos, self.size),
                style: self.get_background_style(),
            },
        );
        let text_height = self.character_style.font.character_size.height;
        let image_size = self.image_drawable.size;
        let image_offset_x = self.size.width.saturating_sub(image_size.width) / 2;
        let image_offset_y = (self.size.height.saturating_sub(image_size.height) / 2).saturating_sub(
            text_height,
        );
        let image_pos = self.pos.offset(image_offset_x as i64, image_offset_y as i64);
        let image = Image::new(self.image_drawable, image_pos);
        display.push(DrawCommand::Image { image });
        let text_pos_x = saturate_i64(self.pos.x as i64 + (self.size.width / 2) as i64);
        let text_pos_y = saturate_i64(
            self.pos.y as i64 + image_pos.y as i64 + image_size.height as i64 + text_height as i64,
        );
        display.push_best_effort(
            DrawCommand::Text {
                text: String::from_str(widget_str(&self.text)),
                position: Point::new(text_pos_x, text_pos_y),
                character_style: CharacterStyle::Mono(self.character_style),
                text_style: self.get_text_style(),
            },
        );
    }
}

/// A line of text on a strip of fixed width.
pub struct Label {
    text: heapless::String<256>,
    pos: Point,
    width: u32,
    background_color: Rgb565,
    foreground_color: Rgb565,
    character_style: MonoTextStyle,
}

/// The state of a [`Label`].
pub struct LabelView {
    pub text: Seq<char>,
    pub pos: Point,
    pub width: u32,
    pub background_color: Rgb565,
    pub foreground_color: Rgb565,
    pub character_style: MonoTextStyle,
}

impl LabelView {
    /// The two operations that draw the label: a strip of the label's width
    /// in the background colour, and on it the text, cut to that width.
    pub open spec fn drawing(self) -> Seq<DrawOpView> {
        text_on_background(
            self.pos,
            CharacterStyle::Mono(self.character_style),
            TextStyle::aligned(Alignment::Left, Baseline::Top),
            truncated(self.width, self.text, self.character_style.font.character_size.width),
            PrimitiveStyle::filled(self.background_color),
            self.width,
        )
    }
}

impl View for Label {
    type V = LabelView;

    closed spec fn view(&self) -> LabelView {
        LabelView {
            text: widget_text(self.text),
            pos: self.pos,
            width: self.width,
            background_color: self.background_color,
            foreground_color: self.foreground_color,
            character_style: self.character_style,
        }
    }
}

impl Label {
    /// A label with the given text. Its foreground is the theme's primary text
    /// colour. The text has 256 bytes at most.
    pub fn new(
        text: &str,
        position: Point,
        width: u32,
        background_color: Rgb565,
        character_style: MonoTextStyle,
        theme: &Theme,
    ) -> (label: Label)
        requires
            text.len() <= widget_capacity(),
        ensures
            label@ == (LabelView {
                text: text@,
                pos: position,
                width,
                background_color,
                foreground_color: theme.text_color_primary,
                character_style,
            }),
    {
        Label {
            text: widget_buffer(text),
            pos: position,
            width,
            background_color,
            foreground_color: theme.text_color_primary,
            character_style,
        }
    }

    fn get_background_style(&self) -> (style: PrimitiveStyle)
        ensures
            style == PrimitiveStyle::filled(self@.background_color),
    {
        PrimitiveStyle::with_fill(self.background_color)
    }

    fn get_text_style(&self) -> (style: TextStyle)
        ensures
            style == TextStyle::aligned(Alignment::Left, Baseline::Top),
    {
        TextStyle::new(Alignment::Left, Baseline::Top)
    }

    /// Records the drawing of the label.
    pub fn draw(&self, display: &mut DrawList)
        ensures
            final(display)@ == old(display)@ + self@.drawing(),
    {
        let shown = GraphicUtils::get_text_with_ellipsis_from_str(
            self.width,
            widget_str(&self.text),
            &self.character_style.font,
        );
        GraphicUtils::display_text_with_background(
            display,
            self.pos,
            CharacterStyle::Mono(self.character_style),
            self.get_text_style(),
            shown.as_str(),
            self.get_background_style(),
            self.width,
        )
    }

    /// Replaces the text and records the drawing of the label. The text has
    /// 256 bytes at most.
    pub fn update_text(&mut self, display: &mut DrawList, text: &str)
        requires
            text.len() <= widget_capacity(),
        ensures
            final(self)@ == (LabelView { text: text@, ..old(self)@ }),
            final(display)@ == old(display)@ + final(self)@.drawing(),
    {
        self.text = widget_buffer(text);
        self.draw(display)
    }
}

} // verus!
