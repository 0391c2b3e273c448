//! The render loop: what each message from the tasks changes, and what is
//! drawn for it.
//!
//! A message is handled in two steps, because the number of a readout is
//! written out by the caller. [`RenderLoop::handle_input`] takes the message,
//! applies a button to the settings, and either records a text in place of the
//! readout or says which number to write out and how.
//! [`RenderLoop::show_readout`] takes the number as it was written out and
//! records the readout, unless the display shows that text already.

use vstd::prelude::*;
use vstd::string::StringExecFns;
use crate::display::{optional, DrawCommand, DrawCommandView, DrawList, DrawOpView};
use crate::geometry::{saturate, saturate_i64, Point, Rectangle, Size};
use crate::graphics::{text_on_background, text_command, GraphicUtils};
use crate::input::{
    calibration_at,
    calibration_count,
    calibration_text,
    get_calibration,
    get_calibration_text,
    next_calibration_index,
    Calibration,
    InputData,
    InputDataView,
    NumberFormat,
    PowerDisplay,
};
use crate::style::{CharacterStyle, MonoTextStyle, PrimitiveStyle, SevenSegmentStyle, TextStyle};
use crate::text::{
    message_str,
    readout_buffer,
    readout_capacity,
    readout_empty,
    readout_str,
    readout_text,
};

verus! {

/// How far right of the frame's left edge the panel's first column lies.
pub const ROWSTART: i32 = 40;

/// How far below the frame's top edge the panel's first row lies.
pub const COLSTART: i32 = 54;

/// The place in the frame of the panel's pixel at `x` and `y`.
pub open spec fn panel_point(x: int, y: int) -> Point {
    Point { x: saturate(x + ROWSTART), y: saturate(y + COLSTART) }
}

/// The place in the frame of the panel's pixel at `point`.
pub fn create_point_from(point: Point) -> (placed: Point)
    ensures
        placed == panel_point(point.x as int, point.y as int),
{
    create_point(point.x, point.y)
}

/// The place in the frame of the panel's pixel at `x` and `y`.
pub fn create_point(x: i32, y: i32) -> (placed: Point)
    ensures
        placed == panel_point(x as int, y as int),
{
    Point::new(
        saturate_i64(x as i64 + ROWSTART as i64),
        saturate_i64(y as i64 + COLSTART as i64),
    )
}

/// Records the drawing of `text` at `pos`. A failure to draw it is dropped.
pub fn display_text(
    display: &mut DrawList,
    pos: Point,
    character_style: CharacterStyle,
    text_style: TextStyle,
    text: &str,
)
    ensures
        final(display)@ == old(display)@.push(
            optional(text_command(pos, character_style, text_style, text@)),
        ),
{
    display.push_best_effort(
        DrawCommand::Text {
            text: String::from_str(text),
            position: pos,
            character_style,
            text_style,
        },
    );
}

/// The panel and the styles in which the render loop draws on it.
#[derive(Clone, Copy, Debug, PartialEq, Eq, Structural)]
pub struct Screen {
    pub display_size: Size,
    /// The style that clears an area.
    pub background_style: PrimitiveStyle,
    /// The layout of every text.
    pub center_text_style: TextStyle,
    /// The style of the readout's number.
    pub voltage_segment_style: SevenSegmentStyle,
    /// The style of the readout's unit and of texts.
    pub large_character_style: MonoTextStyle,
}

impl Screen {
    /// The row on which texts and the readout lie: the middle of the panel.
    pub open spec fn middle(self) -> int {
        self.display_size.height as int / 2
    }

    /// The width that is kept for the unit: two characters.
    pub open spec fn unit_display_width(self) -> int {
        self.large_character_style.font.character_size.width * 2
    }

    /// The two operations that show `message` in place of the readout: the
    /// panel is cleared, and the text is drawn ten pixels from the left on the
    /// middle row. A failure of either is dropped.
    pub open spec fn message_ops(self, message: Seq<char>) -> Seq<DrawOpView> {
        seq![
            optional(
                DrawCommandView::Rectangle {
                    area: Rectangle { top_left: panel_point(0, 0), size: self.display_size },
                    style: self.background_style,
                },
            ),
            optional(
                text_command(
                    panel_point(10, self.middle()),
                    CharacterStyle::Mono(self.large_character_style),
                    self.center_text_style,
                    message,
                ),
            ),
        ]
    }

    /// The four operations that show a readout: the number in seven segments
    /// from the left of the middle row, and the unit at the right, each on a
    /// cleared strip as wide as the panel.
    pub open spec fn readout_ops(self, number: Seq<char>, unit: Seq<char>) -> Seq<DrawOpView> {
        text_on_background(
            panel_point(0, self.middle()),
            CharacterStyle::SevenSegment(self.voltage_segment_style),
            self.center_text_style,
            number,
            self.background_style,
            self.display_size.width,
        ) + text_on_background(
            panel_point(
                saturate(self.display_size.width - self.unit_display_width()) as int,
                self.middle(),
            ),
            CharacterStyle::Mono(self.large_character_style),
            self.center_text_style,
            unit,
            self.background_style,
            self.display_size.width,
        )
    }

    /// The two operations that show a notice: the text from the left of the
    /// middle row on a cleared strip as wide as the panel.
    pub open spec fn notice_ops(self, notice: Seq<char>) -> Seq<DrawOpView> {
        text_on_background(
            panel_point(0, self.middle()),
            CharacterStyle::Mono(self.large_character_style),
            self.center_text_style,
            notice,
            self.background_style,
            self.display_size.width,
        )
    }

    /// The middle row.
    fn middle_row(&self) -> (row: i32)
        ensures
            row == self.middle(),
    {
        (self.display_size.height / 2) as i32
    }

    /// Records the drawing of a notice on the middle row.
    pub fn show_notice(&self, display: &mut DrawList, notice: &str)
        ensures
            final(display)@ == old(display)@ + self.notice_ops(notice@),
    {
        GraphicUtils::display_text_with_background(
            display,
            create_point(0, self.middle_row()),
            CharacterStyle::Mono(self.large_character_style),
            self.center_text_style,
            notice,
            self.background_style,
            self.display_size.width,
        )
    }
}

/// The notice that is shown where no power sensor answers.
pub open spec fn missing_sensor_text() -> Seq<char> {
    "No ina219 found"@
}

/// Says whether the sensor's task is to be started: it is where the sensor
/// answered. Where it did not, a notice of that is recorded instead, once.
pub fn start_sensor(screen: &Screen, display: &mut DrawList, has_sensor: bool) -> (start: bool)
    ensures
        start == has_sensor,
        final(display)@ == old(display)@ + if has_sensor {
            Seq::empty()
        } else {
            screen.notice_ops(missing_sensor_text())
        },
{
    if !has_sensor {
        screen.show_notice(display, "No ina219 found");
    }
    has_sensor
}

/// A number to write out for the readout.
#[derive(Clone, Copy, Debug, PartialEq, Eq, Structural)]
pub struct Readout {
    /// The number, as the 32 bits of a single-precision IEEE 754 value.
    pub value: u32,
    pub format: NumberFormat,
}

/// What follows from a message besides what was recorded for the display.
#[derive(Clone, Copy, Debug, PartialEq, Eq, Structural)]
pub struct Reaction {
    /// The range to set the sensor to.
    pub calibration: Option<Calibration>,
    /// The number to write out and to hand to [`RenderLoop::show_readout`].
    /// None where a text was shown in place of the readout.
    pub readout: Option<Readout>,
}

/// The state of the render loop.
pub struct RenderLoopView {
    pub screen: Screen,
    /// The number of the sensor's range.
    pub cal_index: nat,
    pub power_display: PowerDisplay,
    /// The number that the display shows, as it was written out. Empty where
    /// it shows none.
    pub last_power_display_buf: Seq<char>,
}

impl RenderLoopView {
    /// The state in which the loop starts: the first range, the voltage on
    /// display, no number shown.
    pub open spec fn initial(screen: Screen) -> RenderLoopView {
        RenderLoopView {
            screen,
            cal_index: 0,
            power_display: PowerDisplay::Voltage,
            last_power_display_buf: Seq::empty(),
        }
    }

    /// The state after the message. Button 0 goes on to the next range, and
    /// after the last to the first, and forgets the number that is shown.
    /// Button 1 steps the display back and button 2 steps it forward, each
    /// staying at the end it has reached. Nothing else changes anything.
    pub open spec fn after_input(self, input: InputDataView) -> RenderLoopView {
        if input.button == 0 {
            RenderLoopView {
                cal_index: next_calibration_index(self.cal_index),
                last_power_display_buf: Seq::empty(),
                ..self
            }
        } else if input.button == 1 {
            RenderLoopView { power_display: self.power_display.back(), ..self }
        } else if input.button == 2 {
            RenderLoopView { power_display: self.power_display.forward(), ..self }
        } else {
            self
        }
    }

    /// The range that the message has the sensor set to: the next range for
    /// button 0, none for anything else.
    pub open spec fn published(self, input: InputDataView) -> Option<Calibration> {
        if input.button == 0 {
            Some(calibration_at(next_calibration_index(self.cal_index)))
        } else {
            None
        }
    }

    /// The text that the message has shown in place of the readout: the name
    /// of the new range for button 0, else the text that the message brings.
    pub open spec fn message(self, input: InputDataView) -> Option<Seq<char>> {
        if input.button == 0 {
            Some(calibration_text(calibration_at(next_calibration_index(self.cal_index))))
        } else {
            input.msg
        }
    }

    /// The number that is written out for the message, in the state after it.
    pub open spec fn readout(self, input: InputDataView) -> Readout {
        Readout {
            value: self.after_input(input).power_display.shown(input.power),
            format: self.after_input(input).power_display.number_format(),
        }
    }

    /// What is drawn for a number as it was written out: the readout, or
    /// nothing where the display shows that text already.
    pub open spec fn readout_drawing(self, number: Seq<char>) -> Seq<DrawOpView> {
        if number != self.last_power_display_buf {
            self.screen.readout_ops(number, self.power_display.unit_text())
        } else {
            Seq::empty()
        }
    }
}

/// Three presses of button 0 lead through the other two ranges and back to the
/// range from which they started.
pub proof fn lemma_three_presses_cycle_calibration(state: RenderLoopView)
    requires
        state.cal_index < calibration_count(),
    ensures
        state.after_input(InputDataView::pressed(0)).cal_index != state.cal_index,
        state.after_input(InputDataView::pressed(0)).after_input(
            InputDataView::pressed(0),
        ).cal_index != state.cal_index,
        state.after_input(InputDataView::pressed(0)).after_input(
            InputDataView::pressed(0),
        ).after_input(InputDataView::pressed(0)).cal_index == state.cal_index,
{
}

/// Button 1 leaves the first mode of the display as it is, and button 2 the
/// last.
pub proof fn lemma_display_mode_stays_at_ends(state: RenderLoopView)
    ensures
        state.power_display == PowerDisplay::Voltage ==> state.after_input(
            InputDataView::pressed(1),
        ) == state,
        state.power_display == PowerDisplay::Power ==> state.after_input(
            InputDataView::pressed(2),
        ) == state,
{
}

/// The single consumer of the tasks' messages.
pub struct RenderLoop {
    screen: Screen,
    cal_index: usize,
    power_display: PowerDisplay,
    last_power_display_buf: heapless::String<64>,
}

impl View for RenderLoop {
    type V = RenderLoopView;

    closed spec fn view(&self) -> RenderLoopView {
        RenderLoopView {
            screen: self.screen,
            cal_index: self.cal_index as nat,
            power_display: self.power_display,
            last_power_display_buf: readout_text(self.last_power_display_buf),
        }
    }
}

impl RenderLoop {
    #[verifier::type_invariant]
    spec fn holds(self) -> bool {
        self.cal_index < calibration_count()
    }

    /// The loop before its first message.
    pub fn new(screen: Screen) -> (render_loop: RenderLoop)
        ensures
            render_loop@ == RenderLoopView::initial(screen),
    {
        RenderLoop {
            screen,
            cal_index: 0,
            power_display: PowerDisplay::Voltage,
            last_power_display_buf: readout_empty(),
        }
    }

    /// The number of the sensor's range.
    pub fn cal_index(&self) -> (index: usize)
        ensures
            index == self@.cal_index,
            index < calibration_count(),
    {
        proof {
            use_type_invariant(self);
        }
        self.cal_index
    }

    /// What the display shows of a sample.
    pub fn power_display(&self) -> (mode: PowerDisplay)
        ensures
            mode == self@.power_display,
    {
        self.power_display
    }

    /// Takes a message. A button changes the settings. Where the message
    /// brings a text, or the button a new range, the text is recorded in place
    /// of the readout; else the reaction names the number to write out.
    pub fn handle_input(&mut self, display: &mut DrawList, input: &InputData) -> (reaction:
        Reaction)
        ensures
            final(self)@ == old(self)@.after_input(input@),
            final(self)@.cal_index < calibration_count(),
            reaction.calibration == old(self)@.published(input@),
            match old(self)@.message(input@) {
                Some(message) => {
                    &&& reaction.readout.is_none()
                    &&& final(display)@ == old(display)@ + old(self)@.screen.message_ops(message)
                },
                None => {
                    &&& reaction.readout == Some(old(self)@.readout(input@))
                    &&& final(display)@ == old(display)@
                },
            },
    {
        proof {
            use_type_invariant(&*self);
        }
        let mut calibration: Option<Calibration> = None;
        let mut range_name: Option<heapless::String<128>> = None;
        if input.button != -1 {
            match input.button {
                0 => {
                    self.cal_index = (self.cal_index + 1) % 3;
                    let selected = get_calibration(self.cal_index);
                    calibration = Some(selected);
                    range_name = Some(get_calibration_text(selected));
                    self.last_power_display_buf = readout_empty();
                },
                1 => {
                    self.power_display = match self.power_display.previous() {
                        Some(mode) => mode,
                        None => PowerDisplay::Voltage,
                    };
                },
                2 => {
                    self.power_display = match self.power_display.next() {
                        Some(mode) => mode,
                        None => PowerDisplay::Power,
                    };
                },
                _ => {},
            }
        }
        let msg: Option<&str> = match &range_name {
            Some(text) => Some(message_str(text)),
            None => match &input.msg {
                Some(text) => Some(message_str(text)),
                None => None,
            },
        };
        match msg {
            Some(message) => {
                display.push_best_effort(
                    DrawCommand::Rectangle {
                        area: Rectangle::new(create_point(0, 0), self.screen.display_size),
                        style: self.screen.background_style,
                    },
                );
                display_text(
                    display,
                    create_point(10, self.screen.middle_row()),
                    CharacterStyle::Mono(self.screen.large_character_style),
                    self.screen.center_text_style,
                    message,
                );
                Reaction { calibration, readout: None }
            },
            None => {
                Reaction {
                    calibration,
                    readout: Some(
                        Readout {
                            value: self.power_display.value(&input.power),
                            format: self.power_display.format(),
                        },
                    ),
                }
            },
        }
    }

    /// Takes the number of the readout as it was written out, in 64 bytes at
    /// most. Where the display shows another text, the readout is recorded:
    /// the number and behind it the unit. The number is remembered as the one
    /// that is shown.
    pub fn show_readout(&mut self, display: &mut DrawList, number: &str)
        requires
            number.len() <= readout_capacity(),
        ensures
            final(self)@ == (RenderLoopView { last_power_display_buf: number@, ..old(self)@ }),
            final(display)@ == old(display)@ + old(self)@.readout_drawing(number@),
    {
        proof {
            use_type_invariant(&*self);
        }
        let power_display_buf = readout_buffer(number);
        if String::from_str(readout_str(&power_display_buf)) != String::from_str(
            readout_str(&self.last_power_display_buf),
        ) {
            GraphicUtils::display_text_with_background(
                display,
                create_point(0, self.screen.middle_row()),
                CharacterStyle::SevenSegment(self.screen.voltage_segment_style),
                self.screen.center_text_style,
                readout_str(&power_display_buf),
                self.screen.background_style,
                self.screen.display_size.width,
            );
            let unit_display_width: i64 = self.screen.large_character_style.font.character_size.width as i64
                * 2;
            GraphicUtils::display_text_with_background(
                display,
                create_point(
                    saturate_i64(self.screen.display_size.width as i64 - unit_display_width),
                    self.screen.middle_row(),
                ),
                CharacterStyle::Mono(self.screen.large_character_style),
                self.screen.center_text_style,
                self.power_display.unit(),
                self.screen.background_style,
                self.screen.display_size.width,
            );
        }
        self.last_power_display_buf = power_display_buf;
    }
}

} // verus!
