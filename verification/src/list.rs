//! The scrollable list: a window of a few rows over many items, one of which
//! is selected.

use vstd::prelude::*;
use vstd::string::StringExecFns;
use crate::display::{required, DrawCommand, DrawCommandView, DrawList, DrawOpView};
use crate::geometry::{saturate, shrink, Point, Rectangle, Size};
use crate::graphics::{text_on_background, truncated, GraphicUtils};
use crate::style::{CharacterStyle, MonoFont, MonoTextStyle, PrimitiveStyle, Rgb565, TextStyle, Theme};

verus! {

/// What a list shows of one of its items.
pub trait ListItem {
    fn get_text(&self) -> &str;

    fn get_height(&self) -> u16;

    fn get_font(&self) -> &MonoFont;

    fn get_text_style(&self) -> TextStyle;
}

/// One row of a list: what an item showed of itself when the list was made.
#[derive(Clone, Debug, PartialEq, Eq)]
pub struct ListRow {
    pub text: String,
    pub height: u16,
    pub font: MonoFont,
    pub text_style: TextStyle,
}

/// What a [`ListRow`] says.
pub struct ListRowView {
    pub text: Seq<char>,
    pub height: u16,
    pub font: MonoFont,
    pub text_style: TextStyle,
}

impl View for ListRow {
    type V = ListRowView;

    open spec fn view(&self) -> ListRowView {
        ListRowView {
            text: self.text@,
            height: self.height,
            font: self.font,
            text_style: self.text_style,
        }
    }
}

/// What each of the rows says.
pub open spec fn row_views(rows: Seq<ListRow>) -> Seq<ListRowView> {
    Seq::new(rows.len(), |i: int| rows[i]@)
}

/// Whether `row` holds what the four methods of `item` can return.
pub open spec fn shows<T: ListItem>(item: &T, row: ListRowView) -> bool {
    &&& exists|text: &str| call_ensures(T::get_text, (item,), text) && text@ == row.text
    &&& call_ensures(T::get_height, (item,), row.height)
    &&& exists|font: &MonoFont| call_ensures(T::get_font, (item,), font) && *font == row.font
    &&& call_ensures(T::get_text_style, (item,), row.text_style)
}

/// The width of the strip at the right that is kept for the scrollbar.
pub open spec fn scrollbar_width() -> u32 {
    20
}

/// The number of rows that a viewport of `viewport_height` pixels shows, where
/// the first item is `first_height` pixels high: as many as fit, and one at least.
pub open spec fn lines_that_fit(viewport_height: u32, first_height: Option<u16>) -> nat {
    match first_height {
        Some(height) => if height > 0 && viewport_height as int / height as int >= 1 {
            (viewport_height as int / height as int) as nat
        } else {
            1
        },
        None => 1,
    }
}

/// One move of the selection.
pub enum Scroll {
    Up,
    Down,
}

/// The state of a list.
pub struct ListView {
    pub rows: Seq<ListRowView>,
    pub pos: Point,
    pub size: Size,
    pub selected_index: nat,
    pub visible_lines: nat,
    pub window_start: nat,
    pub highlight_color: Rgb565,
    pub background_color: Rgb565,
    pub text_color: Rgb565,
}

impl ListView {
    /// The list as it is made: the first item selected, the window at the top.
    pub open spec fn initial(rows: Seq<ListRowView>, pos: Point, size: Size, theme: Theme) -> ListView {
        ListView {
            rows,
            pos,
            size,
            selected_index: 0,
            visible_lines: lines_that_fit(
                size.height,
                if rows.len() == 0 {
                    None
                } else {
                    Some(rows[0].height)
                },
            ),
            window_start: 0,
            highlight_color: theme.highlight_color,
            background_color: theme.screen_background_color,
            text_color: theme.text_color_primary,
        }
    }

    /// Whether the selected item is one of those in the window.
    pub open spec fn selection_visible(self) -> bool {
        self.window_start <= self.selected_index < self.window_start + self.visible_lines
    }

    /// What holds of every list: the window has a row at least, the selected
    /// index is that of an item, or zero where there is none, the selected
    /// item is in the window, and the window does not reach beyond the last
    /// item unless it starts at the first.
    pub open spec fn valid(self) -> bool {
        &&& 1 <= self.visible_lines <= u32::MAX
        &&& self.rows.len() <= usize::MAX
        &&& self.selected_index < self.rows.len() || (self.rows.len() == 0 && self.selected_index
            == 0)
        &&& self.selection_visible()
        &&& self.window_start + self.visible_lines <= self.rows.len() || self.window_start == 0
    }

    /// The list after the selection has moved one item down: it stays on the
    /// last item, and the window follows by one row where the selection has
    /// left it.
    pub open spec fn scrolled_down(self) -> ListView {
        let selected = if self.selected_index + 1 < self.rows.len() {
            self.selected_index + 1
        } else {
            self.selected_index
        };
        ListView {
            selected_index: selected,
            window_start: if selected > self.window_start + self.visible_lines - 1 {
                self.window_start + 1
            } else {
                self.window_start
            },
            ..self
        }
    }

    /// The list after the selection has moved one item up: it stays on the
    /// first item, and the window follows by one row where the selection has
    /// left it.
    pub open spec fn scrolled_up(self) -> ListView {
        let selected = if self.selected_index > 0 {
            (self.selected_index - 1) as nat
        } else {
            self.selected_index
        };
        ListView {
            selected_index: selected,
            window_start: if selected < self.window_start {
                (self.window_start - 1) as nat
            } else {
                self.window_start
            },
            ..self
        }
    }

    /// The list after one move.
    pub open spec fn scrolled(self, direction: Scroll) -> ListView {
        match direction {
            Scroll::Up => self.scrolled_up(),
            Scroll::Down => self.scrolled_down(),
        }
    }

    /// The list after the moves, first to last.
    pub open spec fn scrolled_all(self, moves: Seq<Scroll>) -> ListView
        decreases moves.len(),
    {
        if moves.len() == 0 {
            self
        } else {
            self.scrolled_all(moves.drop_last()).scrolled(moves.last())
        }
    }

    /// Where the window starts when it is to hold the item at `index`: where
    /// it starts now if the item is in it, else at the nearest place from
    /// which it holds the item. That is at the item where the item lies
    /// before the window, and where the item is the window's last where it
    /// lies behind.
    pub open spec fn window_holding(self, index: nat) -> nat {
        if index < self.window_start {
            index
        } else if index >= self.window_start + self.visible_lines {
            (index + 1 - self.visible_lines) as nat
        } else {
            self.window_start
        }
    }

    /// The index behind the last item of the window.
    pub open spec fn window_end(self) -> nat {
        if self.window_start + self.visible_lines < self.rows.len() {
            self.window_start + self.visible_lines
        } else {
            self.rows.len()
        }
    }

    /// Whether there are more items than rows, so that a scrollbar is shown.
    pub open spec fn show_scrollbar(self) -> bool {
        self.rows.len() > self.visible_lines
    }

    /// The width of the rows' text: the viewport without the scrollbar's strip.
    pub open spec fn text_width(self) -> u32 {
        shrink(self.size.width as int, scrollbar_width() as int) as u32
    }

    /// The width of the rows' background: the viewport without the scrollbar's
    /// strip where a scrollbar is shown, else without a margin of ten pixels.
    pub open spec fn row_width(self) -> u32 {
        if self.show_scrollbar() {
            shrink(self.size.width as int, scrollbar_width() as int) as u32
        } else {
            shrink(self.size.width as int, 10) as u32
        }
    }

    /// Where the row of the item at `index` starts: as many times the item's
    /// own height below the top as rows of the window lie before it.
    pub open spec fn row_position(self, index: int) -> Point {
        self.pos.moved(0, (index - self.window_start) * self.rows[index].height)
    }

    /// The area in which a touch selects the item at `index`.
    pub open spec fn row_area(self, index: int) -> Rectangle {
        Rectangle {
            top_left: self.row_position(index),
            size: Size { width: self.size.width, height: self.rows[index].height as u32 },
        }
    }

    /// The operations that draw the row of the item at `index`: its text, cut
    /// to the width left of the scrollbar, on the highlight colour where the
    /// item is selected and on the background colour where it is not.
    pub open spec fn row_ops(self, index: int) -> Seq<DrawOpView> {
        let row = self.rows[index];
        text_on_background(
            self.row_position(index),
            CharacterStyle::Mono(MonoTextStyle::colored(row.font, self.text_color)),
            row.text_style,
            truncated(self.text_width(), row.text, row.font.character_size.width),
            PrimitiveStyle::filled(
                if self.selected_index == index {
                    self.highlight_color
                } else {
                    self.background_color
                },
            ),
            self.row_width(),
        )
    }

    /// The operations that draw the rows of the items from `from` up to, not
    /// including, `to`.
    pub open spec fn rows_ops(self, from: int, to: int) -> Seq<DrawOpView>
        decreases to - from,
    {
        if from >= to {
            Seq::empty()
        } else {
            self.rows_ops(from, to - 1) + self.row_ops(to - 1)
        }
    }

    /// The height of the scrollbar's track: the viewport's without ten pixels.
    pub open spec fn track_height(self) -> u32 {
        shrink(self.size.height as int, 10) as u32
    }

    /// The height of the scrollbar's indicator: that part of the track which
    /// the rows of the window are of all items.
    pub open spec fn indicator_height(self) -> int {
        self.track_height() * self.visible_lines / self.rows.len() as int
    }

    /// How far below the track's top the indicator starts: that part of the
    /// track which the items before the window are of all items.
    pub open spec fn indicator_start(self) -> int {
        self.track_height() * self.window_start / self.rows.len() as int
    }

    /// The two operations that draw the scrollbar: its track in the highlight
    /// colour, and on it the indicator in the text colour.
    pub open spec fn scrollbar_ops(self) -> Seq<DrawOpView> {
        let left = saturate(self.text_width() as int);
        seq![
            required(
                DrawCommandView::Rectangle {
                    area: Rectangle {
                        top_left: Point { x: left, y: self.pos.y },
                        size: Size { width: scrollbar_width(), height: self.track_height() },
                    },
                    style: PrimitiveStyle::filled(self.highlight_color),
                },
            ),
            required(
                DrawCommandView::Rectangle {
                    area: Rectangle {
                        top_left: Point {
                            x: left,
                            y: saturate(self.pos.y + self.indicator_start()),
                        },
                        size: Size {
                            width: scrollbar_width(),
                            height: self.indicator_height() as u32,
                        },
                    },
                    style: PrimitiveStyle::filled(self.text_color),
                },
            ),
        ]
    }

    /// All operations that draw the list: the rows of the window, top to
    /// bottom, and then the scrollbar where there are more items than rows.
    pub open spec fn drawing(self) -> Seq<DrawOpView> {
        self.rows_ops(self.window_start as int, self.window_end() as int) + if self.show_scrollbar() {
            self.scrollbar_ops()
        } else {
            Seq::empty()
        }
    }

    /// The first item from `from` up to, not including, `to` whose row holds
    /// `point`.
    pub open spec fn first_hit(self, point: Point, from: int, to: int) -> Option<int>
        decreases to - from,
    {
        if from >= to {
            None
        } else if self.row_area(from).covers(point) {
            Some(from)
        } else {
            self.first_hit(point, from + 1, to)
        }
    }

    /// The list after a touch at `point`: the first item of the window whose
    /// row holds the point is selected; where none does, nothing changes.
    pub open spec fn touched(self, point: Point) -> ListView {
        match self.first_hit(point, self.window_start as int, self.window_end() as int) {
            Some(index) => ListView { selected_index: index as nat, ..self },
            None => self,
        }
    }
}

/// One move up or down keeps a list valid: the selected item stays one of the
/// items and stays in the window.
pub proof fn lemma_scroll_keeps_selection_visible(list: ListView, direction: Scroll)
    requires
        list.valid(),
    ensures
        list.scrolled(direction).valid(),
        list.scrolled(direction).selection_visible(),
        list.scrolled(direction).rows == list.rows,
        list.scrolled(direction).visible_lines == list.visible_lines,
{
}

/// The window that is to hold an item holds it, moves no further than it has
/// to, and does not reach beyond the last item unless it starts at the first.
pub proof fn lemma_window_holding(list: ListView, index: nat)
    requires
        list.valid(),
        index < list.rows.len(),
    ensures
        list.window_holding(index) <= index < list.window_holding(index) + list.visible_lines,
        list.window_holding(index) + list.visible_lines <= list.rows.len() || list.window_holding(
            index,
        ) == 0,
        list.window_start <= index < list.window_start + list.visible_lines
            ==> list.window_holding(index) == list.window_start,
        index < list.window_start ==> list.window_holding(index) == index,
        index >= list.window_start + list.visible_lines ==> list.window_holding(index)
            + list.visible_lines == index + 1,
{
}

/// Whatever moves up and down are made, in whatever order, the selected item
/// stays in the window and stays one of the items.
pub proof fn lemma_scrolling_keeps_selection_visible(list: ListView, moves: Seq<Scroll>)
    requires
        list.valid(),
    ensures
        list.scrolled_all(moves).valid(),
        list.scrolled_all(moves).selection_visible(),
        list.scrolled_all(moves).rows == list.rows,
        list.scrolled_all(moves).visible_lines == list.visible_lines,
        list.scrolled_all(moves).window_start <= list.scrolled_all(moves).selected_index
            < list.scrolled_all(moves).window_start + list.visible_lines,
        list.rows.len() > 0 ==> 0 <= list.scrolled_all(moves).selected_index <= list.rows.len() - 1,
    decreases moves.len(),
{
    if moves.len() > 0 {
        lemma_scrolling_keeps_selection_visible(list, moves.drop_last());
        lemma_scroll_keeps_selection_visible(list.scrolled_all(moves.drop_last()), moves.last());
    }
}

/// On the last item a move down changes nothing: the selection stays on the
/// last item, and the window stays where it is, which is not beyond the place
/// from which it ends with the last item.
pub proof fn lemma_scroll_down_on_last_item(list: ListView)
    requires
        list.valid(),
        list.rows.len() > 0,
        list.selected_index == list.rows.len() - 1,
    ensures
        list.scrolled_down() == list,
        list.scrolled_down().selected_index == list.rows.len() - 1,
        list.scrolled_down().window_start <= shrink(
            list.rows.len() as int,
            list.visible_lines as int,
        ),
{
}

/// The selected item and the start of the window. The two change together,
/// so that the window holds the selected item at every moment.
#[derive(Clone, Copy)]
struct Place {
    selected_index: usize,
    window_start: usize,
}

/// A scrollable list of rows with one selected.
pub struct List {
    list_items: Vec<ListRow>,
    pos: Point,
    size: Size,
    place: Place,
    visible_lines: usize,
    highlight_color: Rgb565,
    background_color: Rgb565,
    text_color: Rgb565,
}

impl View for List {
    type V = ListView;

    closed spec fn view(&self) -> ListView {
        ListView {
            rows: row_views(self.list_items@),
            pos: self.pos,
            size: self.size,
            selected_index: self.place.selected_index as nat,
            visible_lines: self.visible_lines as nat,
            window_start: self.place.window_start as nat,
            highlight_color: self.highlight_color,
            background_color: self.background_color,
            text_color: self.text_color,
        }
    }
}

/// The number of rows that a viewport of `viewport_height` pixels shows.
fn count_lines(viewport_height: u32, first_height: Option<u16>) -> (lines: usize)
    ensures
        lines == lines_that_fit(viewport_height, first_height),
        1 <= lines <= u32::MAX,
{
    match first_height {
        Some(height) => {
            if height > 0 && viewport_height / (height as u32) >= 1 {
                (viewport_height / (height as u32)) as usize
            } else {
                1
            }
        },
        None => 1,
    }
}

impl List {
    #[verifier::type_invariant]
    spec fn holds(self) -> bool {
        self@.valid()
    }

    /// A list of what the items show of themselves, in a viewport of the
    /// given place and size. Each item is asked once, here.
    pub fn new<T: ListItem>(items: &Vec<T>, pos: Point, size: Size, theme: &Theme) -> (list: List)
        ensures
            exists|rows: Seq<ListRowView>|
                {
                    &&& rows.len() == items@.len()
                    &&& forall|i: int| 0 <= i < rows.len() ==> shows(&items@[i], #[trigger] rows[i])
                    &&& list@ == ListView::initial(rows, pos, size, *theme)
                },
            list@.valid(),
    {
        let mut rows: Vec<ListRow> = Vec::new();
        let mut i: usize = 0;
        while i < items.len()
            invariant
                i <= items.len(),
                rows@.len() == i,
                forall|j: int| 0 <= j < rows@.len() ==> shows(&items@[j], #[trigger] rows@[j]@),
            decreases items.len() - i,
        {
            let item = &items[i];
            let text = item.get_text();
            let height = item.get_height();
            let font = item.get_font();
            let text_style = item.get_text_style();
            rows.push(ListRow { text: String::from_str(text), height, font: *font, text_style });
            i = i + 1;
        }
        List::from_rows(rows, pos, size, theme)
    }

    /// A list of the given rows in a viewport of the given place and size.
    /// The first row is selected and the window starts at it. The window shows
    /// as many rows as the viewport has room for rows of the first row's
    /// height, and one at least.
    pub fn from_rows(rows: Vec<ListRow>, pos: Point, size: Size, theme: &Theme) -> (list: List)
        ensures
            list@ == ListView::initial(row_views(rows@), pos, size, *theme),
            list@.valid(),
    {
        let first_height = if rows.len() == 0 {
            None
        } else {
            Some(rows[0].height)
        };
        List {
            list_items: rows,
            pos,
            size,
            place: Place { selected_index: 0, window_start: 0 },
            visible_lines: count_lines(size.height, first_height),
            highlight_color: theme.highlight_color,
            background_color: theme.screen_background_color,
            text_color: theme.text_color_primary,
        }
    }

    fn get_selected_style(&self) -> (style: PrimitiveStyle)
        ensures
            style == PrimitiveStyle::filled(self@.highlight_color),
    {
        PrimitiveStyle::with_fill(self.highlight_color)
    }

    fn get_background_style(&self) -> (style: PrimitiveStyle)
        ensures
            style == PrimitiveStyle::filled(self@.background_color),
    {
        PrimitiveStyle::with_fill(self.background_color)
    }

    fn get_scrollbar_style(&self) -> (style: PrimitiveStyle)
        ensures
            style == PrimitiveStyle::filled(self@.highlight_color),
    {
        PrimitiveStyle::with_fill(self.highlight_color)
    }

    fn get_scrollbar_indicator_style(&self) -> (style: PrimitiveStyle)
        ensures
            style == PrimitiveStyle::filled(self@.text_color),
    {
        PrimitiveStyle::with_fill(self.text_color)
    }

    fn get_character_style(&self, item: &ListRow) -> (style: CharacterStyle)
        ensures
            style == CharacterStyle::Mono(MonoTextStyle::colored(item.font, self@.text_color)),
    {
        CharacterStyle::Mono(MonoTextStyle::new(item.font, self.text_color))
    }

    fn show_scrollbar(&self) -> (shown: bool)
        ensures
            shown == self@.show_scrollbar(),
    {
        self.list_items.len() > self.visible_lines
    }

    fn get_scrollbar_width(&self) -> (width: u32)
        ensures
            width == scrollbar_width(),
    {
        20u32
    }

    fn get_visible_text(&self, item: &ListRow) -> (text: String)
        ensures
            text@ == truncated(self@.text_width(), item.text@, item.font.character_size.width),
    {
        let visible_width = self.size.width.saturating_sub(self.get_scrollbar_width());
        GraphicUtils::get_text_with_ellipsis_from_string(
            visible_width,
            item.text.as_str(),
            &item.font,
        )
    }

    /// The index behind the last item of the window.
    fn window_end(&self) -> (end: usize)
        ensures
            end == self@.window_end(),
            self.place.window_start <= end <= self.list_items@.len(),
            end - self.place.window_start <= self.visible_lines,
    {
        proof {
            use_type_invariant(self);
        }
        let end = self.place.window_start + self.visible_lines;
        if end < self.list_items.len() {
            end
        } else {
            self.list_items.len()
        }
    }

    /// Where the row of the item at `index` starts.
    fn row_position(&self, index: usize) -> (position: Point)
        requires
            self.place.window_start <= index < self.list_items@.len(),
            index - self.place.window_start < self.visible_lines,
        ensures
            position == self@.row_position(index as int),
    {
        proof {
            use_type_invariant(self);
        }
        let lines: i64 = (index - self.place.window_start) as i64;
        let height: i64 = self.list_items[index].height as i64;
        assert(0 <= lines * height <= 0x1_0000_0000 * 0x1_0000) by (nonlinear_arith)
            requires
                0 <= lines < 0x1_0000_0000,
                0 <= height < 0x1_0000,
        ;
        self.pos.offset(0, lines * height)
    }

    /// Records the drawing of the list: the rows of the window, and the
    /// scrollbar where there are more items than rows.
    pub fn draw(&self, display: &mut DrawList)
        ensures
            final(display)@ == old(display)@ + self@.drawing(),
    {
        proof {
            use_type_invariant(self);
        }
        let end = self.window_end();
        let row_width = if self.show_scrollbar() {
            self.size.width.saturating_sub(self.get_scrollbar_width())
        } else {
            self.size.width.saturating_sub(10)
        };
        let mut list_items_index: usize = self.place.window_start;
        while list_items_index < end
            invariant
                self.place.window_start <= list_items_index <= end <= self.list_items@.len(),
                end - self.place.window_start <= self.visible_lines,
                row_width == self@.row_width(),
                display@ == old(display)@ + self@.rows_ops(
                    self.place.window_start as int,
                    list_items_index as int,
                ),
            decreases end - list_items_index,
        {
            let item = &self.list_items[list_items_index];
            let text = self.get_visible_text(item);
            let character_style = self.get_character_style(item);
            let text_style = item.text_style;
            let mut background_style = self.get_background_style();
            if self.place.selected_index == list_items_index {
                background_style = self.get_selected_style();
            }
            let position = self.row_position(list_items_index);
            GraphicUtils::display_text_with_background(
                display,
                position,
                character_style,
                text_style,
                text.as_str(),
                background_style,
                row_width,
            );
            list_items_index = list_items_index + 1;
        }
        if self.show_scrollbar() {
            let count = self.list_items.len();
            let scrollbar_height_absolute = self.size.height.saturating_sub(10);
            let left = crate::geometry::shifted(
                0,
                self.size.width.saturating_sub(self.get_scrollbar_width()) as i64,
            );
            let scrollbar_pos = Point::new(left, self.pos.y);
            let scrollbar_size = Size::new(self.get_scrollbar_width(), scrollbar_height_absolute);
            let scrollbar_indicator_height = part_of(
                scrollbar_height_absolute,
                self.visible_lines,
                count,
            );
            let scrollbar_indicator_start = part_of(
                scrollbar_height_absolute,
                self.place.window_start,
                count,
            );
            let scrollbar_indicator_pos = Point::new(
                left,
                crate::geometry::shifted(self.pos.y, scrollbar_indicator_start as i64),
            );
            let scrollbar_indicator_size = Size::new(
                self.get_scrollbar_width(),
                scrollbar_indicator_height,
            );
            display.push(
                DrawCommand::Rectangle {
                    area: Rectangle::new(scrollbar_pos, scrollbar_size),
                    style: self.get_scrollbar_style(),
                },
            );
            display.push(
                DrawCommand::Rectangle {
                    area: Rectangle::new(scrollbar_indicator_pos, scrollbar_indicator_size),
                    style: self.get_scrollbar_indicator_style(),
                },
            );
        }
    }

    /// Moves the selection one item down and records the drawing of the list.
    /// On the last item the selection stays. Where the selection leaves the
    /// window, the window moves one row down.
    pub fn scroll_down(&mut self, display: &mut DrawList)
        ensures
            final(self)@ == old(self)@.scrolled_down(),
            final(self)@.valid(),
            final(display)@ == old(display)@ + final(self)@.drawing(),
    {
        proof {
            use_type_invariant(&*self);
        }
        let mut selected_index: usize = self.place.selected_index;
        let mut window_start: usize = self.place.window_start;
        if self.list_items.len() > 0 && selected_index < self.list_items.len() - 1 {
            selected_index += 1
        };
        if selected_index > window_start + self.visible_lines - 1 {
            window_start += 1;
        }
        self.place = Place { selected_index, window_start };
        self.draw(display)
    }

    /// Moves the selection one item up and records the drawing of the list.
    /// On the first item the selection stays. Where the selection leaves the
    /// window, the window moves one row up.
    pub fn scroll_up(&mut self, display: &mut DrawList)
        ensures
            final(self)@ == old(self)@.scrolled_up(),
            final(self)@.valid(),
            final(display)@ == old(display)@ + final(self)@.drawing(),
    {
        proof {
            use_type_invariant(&*self);
        }
        let mut selected_index: usize = self.place.selected_index;
        let mut window_start: usize = self.place.window_start;
        if selected_index > 0 {
            selected_index -= 1
        };
        if selected_index < window_start {
            window_start -= 1;
        }
        self.place = Place { selected_index, window_start };
        self.draw(display)
    }

    /// Selects the first item of the window whose row holds `pos`, records the
    /// drawing of the list and returns the index that is selected then. Where
    /// no row holds the point the selection stays.
    pub fn select_at_pos(&mut self, display: &mut DrawList, pos: Point) -> (selected: usize)
        ensures
            final(self)@ == old(self)@.touched(pos),
            final(self)@.valid(),
            selected == final(self)@.selected_index,
            final(display)@ == old(display)@ + final(self)@.drawing(),
    {
        proof {
            use_type_invariant(&*self);
        }
        let end = self.window_end();
        let mut list_items_index: usize = self.place.window_start;
        let mut found: Option<usize> = None;
        while list_items_index < end
            invariant_except_break
                found.is_none(),
                self@.first_hit(pos, self.place.window_start as int, end as int) == self@.first_hit(
                    pos,
                    list_items_index as int,
                    end as int,
                ),
            invariant
                self.place.window_start <= list_items_index <= end <= self.list_items@.len(),
                end - self.place.window_start <= self.visible_lines,
                *self == *old(self),
            ensures
                match found {
                    Some(index) => self.place.window_start <= index < end && self@.first_hit(
                        pos,
                        self.place.window_start as int,
                        end as int,
                    ) == Some(index as int),
                    None => self@.first_hit(pos, self.place.window_start as int, end as int).is_none(),
                },
            decreases end - list_items_index,
        {
            let item_height = self.list_items[list_items_index].height;
            let item_pos = self.row_position(list_items_index);
            let bounding_box = Rectangle::new(
                item_pos,
                Size::new(self.size.width, item_height as u32),
            );
            if bounding_box.contains(pos) {
                found = Some(list_items_index);
                break ;
            }
            list_items_index = list_items_index + 1;
        }
        match found {
            Some(index) => {
                self.place.selected_index = index;
            },
            None => {},
        }
        self.draw(display);
        self.place.selected_index
    }

    /// The index of the selected item.
    pub fn get_selected_index(&self) -> (index: usize)
        ensures
            index == self@.selected_index,
    {
        self.place.selected_index
    }

    /// Selects the item at `index`. Where there is no such item nothing
    /// changes. Where the item is not in the window, the window moves just as
    /// far as it takes to hold it.
    pub fn set_selected_index(&mut self, index: usize)
        ensures
            index >= old(self)@.rows.len() ==> final(self)@ == old(self)@,
            index < old(self)@.rows.len() ==> final(self)@ == (ListView {
                selected_index: index as nat,
                window_start: old(self)@.window_holding(index as nat),
                ..old(self)@
            }),
            final(self)@.valid(),
    {
        proof {
            use_type_invariant(&*self);
        }
        if index < self.list_items.len() {
            let mut window_start: usize = self.place.window_start;
            if index < window_start {
                window_start = index;
            } else if index - window_start >= self.visible_lines {
                window_start = index + 1 - self.visible_lines;
            }
            self.place = Place { selected_index: index, window_start };
        }
    }

    /// The viewport.
    pub fn get_bounding_box(&self) -> (area: Rectangle)
        ensures
            area == (Rectangle { top_left: self@.pos, size: self@.size }),
    {
        Rectangle::new(self.pos, self.size)
    }

    /// The number of rows in the window.
    pub fn get_visible_lines(&self) -> (lines: usize)
        ensures
            lines == self@.visible_lines,
    {
        self.visible_lines
    }

    /// The index of the first item in the window.
    pub fn get_window_start(&self) -> (start: usize)
        ensures
            start == self@.window_start,
    {
        self.place.window_start
    }
}

/// That part of `total` which `part` is of `whole`, rounded down.
fn part_of(total: u32, part: usize, whole: usize) -> (result: u32)
    requires
        part < whole,
    ensures
        result == total * part / whole as int,
{
    assert(0 <= total * part <= 0x1_0000_0000 * 0x1_0000_0000_0000_0000) by (nonlinear_arith)
        requires
            0 <= total < 0x1_0000_0000,
            0 <= part < 0x1_0000_0000_0000_0000,
    ;
    let product: u128 = total as u128 * part as u128;
    assert(total * part <= total * whole) by (nonlinear_arith)
        requires
            part < whole,
            0 <= total,
    ;
    assert(total * whole / whole as int == total) by (nonlinear_arith)
        requires
            whole > 0,
    ;
    assert(total * part / whole as int <= total * whole / whole as int) by (nonlinear_arith)
        requires
            total * part <= total * whole,
            whole > 0,
    ;
    (product / whole as u128) as u32
}

} // verus!
