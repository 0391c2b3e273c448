use powermeter::display::{DrawCommand, DrawList, DrawOp};
use powermeter::geometry::{Point, Rectangle, Size};
use powermeter::input::{
    get_calibration, get_calibration_text, Calibration, InputData, NumberFormat, PowerDisplay,
    PowerMonitor,
};
use powermeter::render::{
    create_point, create_point_from, display_text, start_sensor, Reaction, Readout, RenderLoop,
    Screen, COLSTART, ROWSTART,
};
use powermeter::style::{
    Alignment, Baseline, CharacterStyle, MonoFont, MonoTextStyle, PrimitiveStyle, Rgb565,
    SevenSegmentStyle, TextStyle,
};

fn screen() -> Screen {
    Screen {
        display_size: Size::new(240, 135),
        background_style: PrimitiveStyle::with_fill(Rgb565::black()),
        center_text_style: TextStyle::new(Alignment::Left, Baseline::Middle),
        voltage_segment_style: SevenSegmentStyle {
            digit_size: Size::new(30, 80),
            digit_spacing: 5,
            segment_width: 10,
            segment_color: Some(Rgb565::white()),
            inactive_segment_color: Some(Rgb565::black()),
        },
        large_character_style: MonoTextStyle {
            font: MonoFont { id: 24, character_size: Size::new(16, 30) },
            text_color: Some(Rgb565::white()),
            background_color: Some(Rgb565::black()),
        },
    }
}

fn sample(voltage: f32, current: f32, power: f32) -> PowerMonitor {
    PowerMonitor {
        shunt: 0.0f32.to_bits(),
        voltage: voltage.to_bits(),
        current: current.to_bits(),
        power: power.to_bits(),
    }
}

fn write_out(readout: &Readout) -> String {
    let number = f32::from_bits(readout.value);
    match readout.format.precision {
        Some(precision) => {
            format!("{:>width$.precision$}", number, width = readout.format.width, precision = precision)
        }
        None => format!("{:>width$}", number, width = readout.format.width),
    }
}

fn required(command: DrawCommand) -> DrawOp {
    DrawOp { command, best_effort: false }
}

fn optional(command: DrawCommand) -> DrawOp {
    DrawOp { command, best_effort: true }
}

fn readout_ops(number: &str, unit: &str) -> Vec<DrawOp> {
    let screen = screen();
    vec![
        required(DrawCommand::Rectangle {
            area: Rectangle::new(Point::new(40, 54 + 67), Size::new(240, 80)),
            style: screen.background_style,
        }),
        required(DrawCommand::Text {
            text: number.to_string(),
            position: Point::new(40, 54 + 67),
            character_style: CharacterStyle::SevenSegment(screen.voltage_segment_style),
            text_style: screen.center_text_style,
        }),
        required(DrawCommand::Rectangle {
            area: Rectangle::new(Point::new(40 + 240 - 32, 54 + 67), Size::new(240, 30)),
            style: screen.background_style,
        }),
        required(DrawCommand::Text {
            text: unit.to_string(),
            position: Point::new(40 + 240 - 32, 54 + 67),
            character_style: CharacterStyle::Mono(screen.large_character_style),
            text_style: screen.center_text_style,
        }),
    ]
}

fn message_ops(message: &str) -> Vec<DrawOp> {
    let screen = screen();
    vec![
        optional(DrawCommand::Rectangle {
            area: Rectangle::new(Point::new(40, 54), Size::new(240, 135)),
            style: screen.background_style,
        }),
        optional(DrawCommand::Text {
            text: message.to_string(),
            position: Point::new(50, 54 + 67),
            character_style: CharacterStyle::Mono(screen.large_character_style),
            text_style: screen.center_text_style,
        }),
    ]
}

/// Runs one message through both steps, as the owner of the display does.
fn run(render_loop: &mut RenderLoop, display: &mut DrawList, input: &InputData) -> Reaction {
    let reaction = render_loop.handle_input(display, input);
    if let Some(readout) = &reaction.readout {
        render_loop.show_readout(display, &write_out(readout));
    }
    reaction
}

#[test]
fn panel_points_are_offset_into_the_frame() {
    assert_eq!((ROWSTART, COLSTART), (40, 54));
    assert_eq!(create_point(0, 0), Point::new(40, 54));
    assert_eq!(create_point(-40, 10), Point::new(0, 64));
    assert_eq!(create_point_from(Point::new(3, 4)), Point::new(43, 58));
    assert_eq!(create_point(i32::MAX, i32::MAX), Point::new(i32::MAX, i32::MAX));
}

#[test]
fn the_calibrations_are_numbered_and_named() {
    assert_eq!(get_calibration(0), Calibration::Range32V2A);
    assert_eq!(get_calibration(1), Calibration::Range32V1A);
    assert_eq!(get_calibration(2), Calibration::Range16V400mA);
    assert_eq!(get_calibration(3), Calibration::Range32V2A);
    assert_eq!(get_calibration(usize::MAX), Calibration::Range32V2A);
    assert_eq!(get_calibration_text(Calibration::Range32V2A).as_str(), "32V - 2A");
    assert_eq!(get_calibration_text(Calibration::Range32V1A).as_str(), "32V - 1A");
    assert_eq!(get_calibration_text(Calibration::Range16V400mA).as_str(), "16V - 400mA");
}

#[test]
fn an_empty_message_names_no_button_and_no_text() {
    let input = InputData::new();
    assert_eq!(input.button, -1);
    assert_eq!(input.power, sample(0.0, 0.0, 0.0));
    assert_eq!(input.msg, None);
    assert_eq!(InputData::with_button(2).button, 2);
    assert_eq!(InputData::with_button(2).msg, None);
    assert_eq!(InputData::with_power(sample(1.0, 2.0, 3.0)).power, sample(1.0, 2.0, 3.0));
    assert_eq!(InputData::with_power(sample(1.0, 2.0, 3.0)).button, -1);
}

#[test]
fn three_presses_of_button_0_return_to_the_first_calibration() {
    let mut render_loop = RenderLoop::new(screen());
    let mut display = DrawList::new();
    assert_eq!(render_loop.cal_index(), 0);
    let mut published = Vec::new();
    let mut indexes = Vec::new();
    for _ in 0..3 {
        let reaction = run(&mut render_loop, &mut display, &InputData::with_button(0));
        published.push(reaction.calibration);
        indexes.push(render_loop.cal_index());
    }
    assert_eq!(indexes, vec![1, 2, 0]);
    assert_eq!(
        published,
        vec![
            Some(Calibration::Range32V1A),
            Some(Calibration::Range16V400mA),
            Some(Calibration::Range32V2A)
        ]
    );
}

#[test]
fn a_new_calibration_is_shown_in_place_of_the_readout() {
    let mut render_loop = RenderLoop::new(screen());
    let mut display = DrawList::new();
    let reaction = render_loop.handle_input(&mut display, &InputData::with_button(0));
    assert_eq!(reaction, Reaction { calibration: Some(Calibration::Range32V1A), readout: None });
    assert_eq!(display.take(), message_ops("32V - 1A"));
}

#[test]
fn the_display_mode_stops_at_both_ends() {
    let mut render_loop = RenderLoop::new(screen());
    let mut display = DrawList::new();
    assert_eq!(render_loop.power_display(), PowerDisplay::Voltage);
    let mut seen = Vec::new();
    for button in [1i8, 2, 2, 2, 2, 1, 1, 1] {
        let reaction = run(&mut render_loop, &mut display, &InputData::with_button(button));
        assert_eq!(reaction.calibration, None);
        seen.push(render_loop.power_display());
    }
    assert_eq!(
        seen,
        vec![
            PowerDisplay::Voltage,
            PowerDisplay::Current,
            PowerDisplay::Power,
            PowerDisplay::Power,
            PowerDisplay::Power,
            PowerDisplay::Current,
            PowerDisplay::Voltage,
            PowerDisplay::Voltage
        ]
    );
    assert_eq!(render_loop.cal_index(), 0);
}

#[test]
fn modes_have_neighbours_formats_and_units() {
    assert_eq!(PowerDisplay::Voltage.previous(), None);
    assert_eq!(PowerDisplay::Voltage.next(), Some(PowerDisplay::Current));
    assert_eq!(PowerDisplay::Current.previous(), Some(PowerDisplay::Voltage));
    assert_eq!(PowerDisplay::Current.next(), Some(PowerDisplay::Power));
    assert_eq!(PowerDisplay::Power.previous(), Some(PowerDisplay::Current));
    assert_eq!(PowerDisplay::Power.next(), None);
    assert_eq!(PowerDisplay::Voltage.format(), NumberFormat { width: 2, precision: Some(3) });
    assert_eq!(PowerDisplay::Current.format(), NumberFormat { width: 5, precision: None });
    assert_eq!(PowerDisplay::Power.format(), NumberFormat { width: 5, precision: None });
    assert_eq!(PowerDisplay::Voltage.unit(), "V ");
    assert_eq!(PowerDisplay::Current.unit(), "mA");
    assert_eq!(PowerDisplay::Power.unit(), "mW");
}

#[test]
fn a_sample_without_current_shows_zero() {
    let mut render_loop = RenderLoop::new(screen());
    let mut display = DrawList::new();
    let input = InputData::with_power(sample(5.0, 0.0, 0.0));
    let reaction = render_loop.handle_input(&mut display, &input);
    assert_eq!(display.len(), 0);
    let readout = reaction.readout.unwrap();
    assert_eq!(readout.value, 0.0f32.to_bits());
    assert_eq!(readout.format, NumberFormat { width: 2, precision: Some(3) });
    let number = write_out(&readout);
    assert_eq!(number, "0.000");
    render_loop.show_readout(&mut display, &number);
    assert_eq!(display.take(), readout_ops("0.000", "V "));
}

#[test]
fn negative_zero_counts_as_no_current() {
    let power = sample(5.0, -0.0, 1.0);
    assert!(power.current_is_zero());
    assert_eq!(PowerDisplay::Voltage.value(&power), 0);
    assert_eq!(PowerDisplay::Current.value(&power), 0);
    assert_eq!(PowerDisplay::Power.value(&power), 0);
    assert!(!sample(0.0, f32::MIN_POSITIVE, 0.0).current_is_zero());
    assert!(!sample(0.0, f32::NAN, 0.0).current_is_zero());
    assert!(!sample(0.0, -1.5, 0.0).current_is_zero());
}

#[test]
fn a_sample_shows_the_number_of_the_mode() {
    let mut render_loop = RenderLoop::new(screen());
    let mut display = DrawList::new();
    let input = InputData::with_power(sample(5.0, 120.5, 602.5));

    run(&mut render_loop, &mut display, &input);
    assert_eq!(display.take(), readout_ops("5.000", "V "));

    run(&mut render_loop, &mut display, &InputData::with_button(2));
    display.take();
    run(&mut render_loop, &mut display, &input);
    assert_eq!(display.take(), readout_ops("120.5", "mA"));

    run(&mut render_loop, &mut display, &InputData::with_button(2));
    display.take();
    run(&mut render_loop, &mut display, &input);
    assert_eq!(display.take(), readout_ops("602.5", "mW"));
}

#[test]
fn short_numbers_are_padded_on_the_left() {
    let mut render_loop = RenderLoop::new(screen());
    let mut display = DrawList::new();
    run(&mut render_loop, &mut display, &InputData::with_button(2));
    assert_eq!(display.take(), readout_ops("    0", "mA"));
    run(&mut render_loop, &mut display, &InputData::with_power(sample(5.0, 7.0, 35.0)));
    assert_eq!(display.take(), readout_ops("    7", "mA"));
}

#[test]
fn an_unchanged_reading_is_not_drawn_again() {
    let mut render_loop = RenderLoop::new(screen());
    let mut display = DrawList::new();
    let input = InputData::with_power(sample(5.0, 120.5, 602.5));
    run(&mut render_loop, &mut display, &input);
    assert_eq!(display.take().len(), 4);
    run(&mut render_loop, &mut display, &input);
    assert_eq!(display.len(), 0);
    // a reading that is written out alike is not drawn either
    run(&mut render_loop, &mut display, &InputData::with_power(sample(5.0001, 120.5, 602.5)));
    assert_eq!(display.len(), 0);
    run(&mut render_loop, &mut display, &InputData::with_power(sample(5.001, 120.5, 602.5)));
    assert_eq!(display.take(), readout_ops("5.001", "V "));
}

#[test]
fn a_message_suppresses_the_readout_until_the_next_sample() {
    let mut render_loop = RenderLoop::new(screen());
    let mut display = DrawList::new();
    let input = InputData::with_power(sample(5.0, 120.5, 602.5));
    run(&mut render_loop, &mut display, &input);
    display.take();
    // the new calibration is shown, and the number on display is forgotten
    run(&mut render_loop, &mut display, &InputData::with_button(0));
    assert_eq!(display.take(), message_ops("32V - 1A"));
    // so the same reading is drawn again
    run(&mut render_loop, &mut display, &input);
    assert_eq!(display.take(), readout_ops("5.000", "V "));
}

#[test]
fn a_message_that_brings_a_text_shows_it() {
    let mut render_loop = RenderLoop::new(screen());
    let mut display = DrawList::new();
    let mut input = InputData::with_power(sample(5.0, 120.5, 602.5));
    input.msg = Some(heapless::String::from("hello"));
    let reaction = render_loop.handle_input(&mut display, &input);
    assert_eq!(reaction, Reaction { calibration: None, readout: None });
    assert_eq!(display.take(), message_ops("hello"));
    // a text does not make the display forget its number
    let plain = InputData::with_power(sample(5.0, 120.5, 602.5));
    run(&mut render_loop, &mut display, &plain);
    assert_eq!(display.take().len(), 4);
    run(&mut render_loop, &mut display, &input);
    display.take();
    run(&mut render_loop, &mut display, &plain);
    assert_eq!(display.len(), 0);
}

#[test]
fn a_button_that_no_task_has_changes_nothing() {
    let mut render_loop = RenderLoop::new(screen());
    let mut display = DrawList::new();
    for button in [3i8, 100, -2, i8::MIN, i8::MAX] {
        let reaction = render_loop.handle_input(&mut display, &InputData::with_button(button));
        assert_eq!(reaction.calibration, None);
        assert!(reaction.readout.is_some());
        assert_eq!(render_loop.cal_index(), 0);
        assert_eq!(render_loop.power_display(), PowerDisplay::Voltage);
    }
}

#[test]
fn the_helper_of_the_loop_draws_best_effort() {
    let mut display = DrawList::new();
    let style = TextStyle::new(Alignment::Left, Baseline::Middle);
    display_text(
        &mut display,
        Point::new(1, 2),
        CharacterStyle::Mono(screen().large_character_style),
        style,
        "note",
    );
    assert_eq!(
        display.take(),
        vec![optional(DrawCommand::Text {
            text: "note".to_string(),
            position: Point::new(1, 2),
            character_style: CharacterStyle::Mono(screen().large_character_style),
            text_style: style,
        })]
    );
}

#[test]
fn a_missing_sensor_is_announced_once_at_the_start() {
    let mut display = DrawList::new();
    assert!(start_sensor(&screen(), &mut display, true));
    assert_eq!(display.len(), 0);
    assert!(!start_sensor(&screen(), &mut display, false));
    assert_eq!(
        display.take(),
        vec![
            required(DrawCommand::Rectangle {
                area: Rectangle::new(Point::new(40, 54 + 67), Size::new(240, 30)),
                style: screen().background_style,
            }),
            required(DrawCommand::Text {
                text: "No ina219 found".to_string(),
                position: Point::new(40, 54 + 67),
                character_style: CharacterStyle::Mono(screen().large_character_style),
                text_style: screen().center_text_style,
            }),
        ]
    );
}

#[test]
fn a_notice_is_drawn_on_the_middle_row() {
    let mut display = DrawList::new();
    screen().show_notice(&mut display, "Battery 3.9 V");
    let ops = display.take();
    assert_eq!(ops.len(), 2);
    match &ops[1].command {
        DrawCommand::Text { text, position, .. } => {
            assert_eq!(text, "Battery 3.9 V");
            assert_eq!(*position, Point::new(40, 121));
        }
        other => panic!("not a text: {:?}", other),
    }
}

#[test]
fn a_number_of_64_bytes_is_shown() {
    let mut render_loop = RenderLoop::new(screen());
    let mut display = DrawList::new();
    let number = "9".repeat(64);
    render_loop.show_readout(&mut display, &number);
    assert_eq!(display.take(), readout_ops(&number, "V "));
    render_loop.show_readout(&mut display, &number);
    assert_eq!(display.len(), 0);
}

#[test]
fn a_message_of_128_bytes_is_shown() {
    let mut render_loop = RenderLoop::new(screen());
    let mut display = DrawList::new();
    let text = "m".repeat(128);
    let mut input = InputData::new();
    input.msg = Some(heapless::String::from(text.as_str()));
    render_loop.handle_input(&mut display, &input);
    assert_eq!(display.take(), message_ops(&text));
}

#[test]
fn a_new_loop_shows_no_number() {
    let mut render_loop = RenderLoop::new(screen());
    let mut display = DrawList::new();
    // the empty text is what the display shows at the start, so it is not drawn
    render_loop.show_readout(&mut display, "");
    assert_eq!(display.len(), 0);
    render_loop.show_readout(&mut display, "1");
    assert_eq!(display.take(), readout_ops("1", "V "));
    // button 0 makes the loop forget the number, so the empty text is not drawn again
    render_loop.handle_input(&mut display, &InputData::with_button(0));
    display.take();
    render_loop.show_readout(&mut display, "");
    assert_eq!(display.len(), 0);
}
