//! The widget toolkit: the drawing helpers, and under the same name the list
//! and the widgets that are built on them.

use vstd::prelude::*;
use vstd::string::StrSliceExecFns;
use vstd::string::StringExecFns;
use crate::display::{required, DrawCommand, DrawCommandView, DrawList, DrawOpView};
use crate::geometry::{shrink, Point, Rectangle, Size};
use crate::style::{CharacterStyle, Image, MonoFont, PrimitiveStyle, TextStyle};

pub use crate::list::{List, ListItem, ListRow};
pub use crate::style::Theme;
pub use crate::widgets::{Button, Label, Progress};

verus! {

/// The marker that stands for the part of a text that was cut off.
pub open spec fn ellipsis() -> Seq<char> {
    seq!['.', '.', '.']
}

/// The text as it is shown in a line of `width` pixels, in a font whose
/// characters are `char_width` pixels wide: the text itself where it fits, else
/// its first characters, three fewer than fit into the line, and the marker.
/// Where fewer than three characters fit, only the marker is left.
pub open spec fn truncated(width: u32, text: Seq<char>, char_width: u32) -> Seq<char> {
    if char_width * text.len() > width {
        text.take(shrink(width as int / char_width as int, 3)) + ellipsis()
    } else {
        text
    }
}

/// The drawing of `text` at `pos`.
pub open spec fn text_command(
    pos: Point,
    character_style: CharacterStyle,
    text_style: TextStyle,
    text: Seq<char>,
) -> DrawCommandView {
    DrawCommandView::Text { text, position: pos, character_style, text_style }
}

/// The two operations that fill a strip of `width` pixels, as high as a line
/// of the text, in the background style and then draw `text` on it.
pub open spec fn text_on_background(
    pos: Point,
    character_style: CharacterStyle,
    text_style: TextStyle,
    text: Seq<char>,
    background_style: PrimitiveStyle,
    width: u32,
) -> Seq<DrawOpView> {
    seq![
        required(
            DrawCommandView::Rectangle {
                area: Rectangle {
                    top_left: pos,
                    size: Size { width, height: character_style.glyph_height() },
                },
                style: background_style,
            },
        ),
        required(text_command(pos, character_style, text_style, text)),
    ]
}

/// The two operations that fill the area of `image` in the background style
/// and then draw the picture on it.
pub open spec fn image_on_background(image: Image, background_style: PrimitiveStyle) -> Seq<
    DrawOpView,
> {
    seq![
        required(DrawCommandView::Rectangle { area: image.area(), style: background_style }),
        required(DrawCommandView::Image { image }),
    ]
}

/// The characters of a text are wider than the line exactly where there are
/// more of them than fit into it: more than `width / char_width`, rounded
/// down.
pub proof fn lemma_too_wide(width: u32, len: nat, char_width: u32)
    ensures
        (char_width * len > width) <==> (char_width > 0 && len > width as int / char_width as int),
{
    if char_width > 0 {
        let c = char_width as int;
        let w = width as int;
        let q = w / c;
        assert(w == c * q + w % c && 0 <= w % c < c) by (nonlinear_arith)
            requires
                c > 0,
                q == w / c,
        ;
        if len as int > q {
            assert(c * len >= c * (q + 1)) by (nonlinear_arith)
                requires
                    c > 0,
                    len as int >= q + 1,
            ;
            assert(c * (q + 1) == c * q + c) by (nonlinear_arith);
        } else {
            assert(c * len <= c * q) by (nonlinear_arith)
                requires
                    c > 0,
                    0 <= len as int <= q,
            ;
        }
    } else {
        assert(char_width * len == 0) by (nonlinear_arith)
            requires
                char_width == 0,
        ;
    }
}

/// Truncating a text for a line twice gives what truncating it once gives.
pub proof fn lemma_truncated_idempotent(width: u32, text: Seq<char>, char_width: u32)
    ensures
        truncated(width, truncated(width, text, char_width), char_width) == truncated(
            width,
            text,
            char_width,
        ),
{
    let once = truncated(width, text, char_width);
    lemma_too_wide(width, text.len(), char_width);
    lemma_too_wide(width, once.len(), char_width);
}

/// Drawing helpers that keep no state.
pub struct GraphicUtils;

impl GraphicUtils {
    /// Records the drawing of `text` at `pos`.
    pub fn display_text(
        display: &mut DrawList,
        pos: Point,
        character_style: CharacterStyle,
        text_style: TextStyle,
        text: &str,
    )
        ensures
            final(display)@ == old(display)@.push(
                required(text_command(pos, character_style, text_style, text@)),
            ),
    {
        display.push(
            DrawCommand::Text {
                text: String::from_str(text),
                position: pos,
                character_style,
                text_style,
            },
        );
    }

    /// Records the drawing of `text` at `pos` on a strip of `width` pixels in
    /// the background style. The strip is drawn first, so that nothing of an
    /// earlier, longer text stays visible.
    pub fn display_text_with_background(
        display: &mut DrawList,
        pos: Point,
        character_style: CharacterStyle,
        text_style: TextStyle,
        text: &str,
        background_style: PrimitiveStyle,
        width: u32,
    )
        ensures
            final(display)@ == old(display)@ + text_on_background(
                pos,
                character_style,
                text_style,
                text@,
                background_style,
                width,
            ),
    {
        display.push(
            DrawCommand::Rectangle {
                area: Rectangle::new(pos, Size::new(width, character_style.text_height())),
                style: background_style,
            },
        );
        display.push(
            DrawCommand::Text {
                text: String::from_str(text),
                position: pos,
                character_style,
                text_style,
            },
        );
    }

    /// Records the drawing of `image` on its own area filled in the background
    /// style.
    pub fn display_image_with_background(
        display: &mut DrawList,
        image: &Image,
        background_style: PrimitiveStyle,
    )
        ensures
            final(display)@ == old(display)@ + image_on_background(*image, background_style),
    {
        display.push(DrawCommand::Rectangle { area: image.bounding_box(), style: background_style });
        display.push(DrawCommand::Image { image: *image });
    }

    /// The size of every button: 90 by 50 pixels.
    pub fn get_button_size() -> (size: Size)
        ensures
            size == (Size { width: 90, height: 50 }),
    {
        Size::new(90, 50)
    }

    /// The text as it is shown in a line of `width` pixels in `font`.
    pub fn get_text_with_ellipsis_from_string(width: u32, text: &str, font: &MonoFont) -> (shown:
        String)
        ensures
            shown@ == truncated(width, text@, font.character_size.width),
    {
        GraphicUtils::get_text_with_ellipsis_from_str(width, text, font)
    }

    /// The text as it is shown in a line of `width` pixels in `font`: the text
    /// itself where its characters fit, else a shorter beginning of it and
    /// three dots. The measure is the number of characters times the width of
    /// one character.
    pub fn get_text_with_ellipsis_from_str(width: u32, text: &str, font: &MonoFont) -> (shown:
        String)
        ensures
            shown@ == truncated(width, text@, font.character_size.width),
    {
        let char_width = font.character_size.width;
        let len = text.unicode_len();
        proof {
            lemma_too_wide(width, text@.len(), char_width);
        }
        if char_width > 0 && len as u64 > (width / char_width) as u64 {
            let text_len_visible = width / char_width;
            let kept: u32 = if text_len_visible >= 3 {
                text_len_visible - 3
            } else {
                0
            };
            let text_visible = text.substring_char(0, kept as usize);
            let mut text_visible_str = String::from_str(text_visible);
            text_visible_str.append("...");
            proof {
                reveal_strlit("...");
            }
            return text_visible_str;
        }
        String::from_str(text)
    }
}

} // verus!
