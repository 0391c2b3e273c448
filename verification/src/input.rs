//! What the tasks send to the render loop, and the two settings that the
//! buttons change: the sensor's range and what the display shows.

use vstd::prelude::*;
use crate::text::{message_buffer, message_text};

verus! {

/// One sample of the power sensor. Each of the four numbers is a
/// single-precision IEEE 754 value, held as its 32 bits.
#[derive(Clone, Copy, Debug, PartialEq, Eq, Structural)]
pub struct PowerMonitor {
    /// The voltage across the shunt, in millivolts.
    pub shunt: u32,
    /// The voltage of the bus, in volts.
    pub voltage: u32,
    /// The current, in milliamperes.
    pub current: u32,
    /// The power, in milliwatts.
    pub power: u32,
}

/// Whether the bits are those of zero, positive or negative.
pub open spec fn is_zero(bits: u32) -> bool {
    bits == 0 || bits == 0x8000_0000
}

impl PowerMonitor {
    /// The sample of which all four numbers are positive zero.
    pub open spec fn zero() -> PowerMonitor {
        PowerMonitor { shunt: 0, voltage: 0, current: 0, power: 0 }
    }

    /// Whether no current was measured.
    pub fn current_is_zero(&self) -> (zero: bool)
        ensures
            zero == is_zero(self.current),
    {
        let bits = self.current;
        assert((bits & 0x7FFF_FFFF == 0) <==> (bits == 0 || bits == 0x8000_0000)) by (bit_vector);
        bits & 0x7FFF_FFFF == 0
    }
}

/// One message to the render loop: the press of a button, a sample of the
/// sensor, or a text to show.
#[derive(Clone, Debug, PartialEq, Eq)]
pub struct InputData {
    /// The number of the button that was pressed, or -1 where none was.
    pub button: i8,
    /// The sample. All zero in a message that brings none.
    pub power: PowerMonitor,
    /// The text to show in place of the readout, of 128 bytes at most.
    pub msg: Option<heapless::String<128>>,
}

/// What an [`InputData`] says.
pub struct InputDataView {
    pub button: i8,
    pub power: PowerMonitor,
    pub msg: Option<Seq<char>>,
}

impl View for InputData {
    type V = InputDataView;

    open spec fn view(&self) -> InputDataView {
        InputDataView {
            button: self.button,
            power: self.power,
            msg: match self.msg {
                Some(text) => Some(message_text(text)),
                None => None,
            },
        }
    }
}

impl InputDataView {
    /// The message that says nothing: no button, a sample of zeros, no text.
    pub open spec fn empty() -> InputDataView {
        InputDataView { button: -1i8, power: PowerMonitor::zero(), msg: None }
    }

    /// The message that the button with the given number was pressed.
    pub open spec fn pressed(button: i8) -> InputDataView {
        InputDataView { button, ..Self::empty() }
    }

    /// The message that brings a sample.
    pub open spec fn sampled(power: PowerMonitor) -> InputDataView {
        InputDataView { power, ..Self::empty() }
    }
}

impl InputData {
    /// The message that says nothing: no button, a sample of zeros, no text.
    pub fn new() -> (input: InputData)
        ensures
            input@ == InputDataView::empty(),
    {
        InputData {
            button: -1,
            power: PowerMonitor { shunt: 0, voltage: 0, current: 0, power: 0 },
            msg: None,
        }
    }

    /// The message that the button with the given number was pressed.
    pub fn with_button(button: i8) -> (input: InputData)
        ensures
            input@ == InputDataView::pressed(button),
    {
        let mut input_data = InputData::new();
        input_data.button = button;
        input_data
    }

    /// The message that brings a sample.
    pub fn with_power(power: PowerMonitor) -> (input: InputData)
        ensures
            input@ == InputDataView::sampled(power),
    {
        let mut input_data = InputData::new();
        input_data.power = power;
        input_data
    }
}

/// The ranges that the power sensor can be set to, in the order in which the
/// first button goes through them.
#[derive(Clone, Copy, Debug, PartialEq, Eq, Structural)]
pub enum Calibration {
    /// Up to 32 volts and 2 amperes.
    Range32V2A,
    /// Up to 32 volts and 1 ampere.
    Range32V1A,
    /// Up to 16 volts and 400 milliamperes.
    Range16V400mA,
}

/// The number of ranges.
pub open spec fn calibration_count() -> nat {
    3
}

/// The range with the given number; the first range for a number that none has.
pub open spec fn calibration_at(index: nat) -> Calibration {
    if index == 1 {
        Calibration::Range32V1A
    } else if index == 2 {
        Calibration::Range16V400mA
    } else {
        Calibration::Range32V2A
    }
}

/// The number of the range that follows the one with the given number: the
/// next one, and after the last the first again.
pub open spec fn next_calibration_index(index: nat) -> nat {
    (index + 1) % calibration_count()
}

/// The name of the range as it is shown.
pub open spec fn calibration_text(calibration: Calibration) -> Seq<char> {
    match calibration {
        Calibration::Range32V2A => "32V - 2A"@,
        Calibration::Range32V1A => "32V - 1A"@,
        Calibration::Range16V400mA => "16V - 400mA"@,
    }
}

/// From any range, three steps lead through the other two and back.
pub proof fn lemma_calibration_cycle(index: nat)
    requires
        index < calibration_count(),
    ensures
        next_calibration_index(index) < calibration_count(),
        next_calibration_index(index) != index,
        next_calibration_index(next_calibration_index(index)) != index,
        next_calibration_index(next_calibration_index(next_calibration_index(index))) == index,
        index == 0 ==> next_calibration_index(index) == 1 && next_calibration_index(
            next_calibration_index(index),
        ) == 2,
{
}

/// The range with the given number; the first range for a number that none has.
pub fn get_calibration(index: usize) -> (calibration: Calibration)
    ensures
        calibration == calibration_at(index as nat),
{
    match index {
        0 => Calibration::Range32V2A,
        1 => Calibration::Range32V1A,
        2 => Calibration::Range16V400mA,
        _ => Calibration::Range32V2A,
    }
}

/// The name of the range as it is shown.
pub fn get_calibration_text(cal: Calibration) -> (text: heapless::String<128>)
    ensures
        message_text(text) == calibration_text(cal),
{
    let name = match cal {
        Calibration::Range32V2A => "32V - 2A",
        Calibration::Range32V1A => "32V - 1A",
        Calibration::Range16V400mA => "16V - 400mA",
    };
    proof {
        reveal_strlit("32V - 2A");
        reveal_strlit("32V - 1A");
        reveal_strlit("16V - 400mA");
        assert(vstd::utf8::is_ascii_chars(name@));
        vstd::utf8::is_ascii_chars_encode_utf8(name@);
    }
    message_buffer(name).unwrap()
}

/// What the display shows of a sample.
#[derive(Clone, Copy, Debug, PartialEq, Eq, Structural)]
pub enum PowerDisplay {
    Voltage,
    Current,
    Power,
}

/// How a number is written: right-justified in `width` characters at least,
/// and with `precision` digits behind the point where that is given.
#[derive(Clone, Copy, Debug, PartialEq, Eq, Structural)]
pub struct NumberFormat {
    pub width: usize,
    pub precision: Option<usize>,
}

impl PowerDisplay {
    /// The mode after this one, if there is one.
    pub open spec fn successor(self) -> Option<PowerDisplay> {
        match self {
            PowerDisplay::Voltage => Some(PowerDisplay::Current),
            PowerDisplay::Current => Some(PowerDisplay::Power),
            PowerDisplay::Power => None,
        }
    }

    /// The mode before this one, if there is one.
    pub open spec fn predecessor(self) -> Option<PowerDisplay> {
        match self {
            PowerDisplay::Voltage => None,
            PowerDisplay::Current => Some(PowerDisplay::Voltage),
            PowerDisplay::Power => Some(PowerDisplay::Current),
        }
    }

    /// The mode that a step forward leads to: the next one, and from the last
    /// the last.
    pub open spec fn forward(self) -> PowerDisplay {
        match self.successor() {
            Some(mode) => mode,
            None => PowerDisplay::Power,
        }
    }

    /// The mode that a step back leads to: the one before, and from the first
    /// the first.
    pub open spec fn back(self) -> PowerDisplay {
        match self.predecessor() {
            Some(mode) => mode,
            None => PowerDisplay::Voltage,
        }
    }

    /// The number of the sample that the mode shows.
    pub open spec fn measured(self, power: PowerMonitor) -> u32 {
        match self {
            PowerDisplay::Voltage => power.voltage,
            PowerDisplay::Current => power.current,
            PowerDisplay::Power => power.power,
        }
    }

    /// The number that the display shows of the sample: the one that the mode
    /// names, and zero where no current was measured.
    pub open spec fn shown(self, power: PowerMonitor) -> u32 {
        if is_zero(power.current) {
            0
        } else {
            self.measured(power)
        }
    }

    /// How the mode's number is written: a voltage with three digits behind
    /// the point, in two characters at least; a current or a power as short as
    /// it can be, in five characters at least.
    pub open spec fn number_format(self) -> NumberFormat {
        match self {
            PowerDisplay::Voltage => NumberFormat { width: 2, precision: Some(3) },
            PowerDisplay::Current => NumberFormat { width: 5, precision: None },
            PowerDisplay::Power => NumberFormat { width: 5, precision: None },
        }
    }

    /// The unit that is shown behind the number.
    pub open spec fn unit_text(self) -> Seq<char> {
        match self {
            PowerDisplay::Voltage => "V "@,
            PowerDisplay::Current => "mA"@,
            PowerDisplay::Power => "mW"@,
        }
    }

    /// The mode after this one, if there is one.
    pub fn next(&self) -> (mode: Option<PowerDisplay>)
        ensures
            mode == self.successor(),
    {
        match self {
            PowerDisplay::Voltage => Some(PowerDisplay::Current),
            PowerDisplay::Current => Some(PowerDisplay::Power),
            PowerDisplay::Power => None,
        }
    }

    /// The mode before this one, if there is one.
    pub fn previous(&self) -> (mode: Option<PowerDisplay>)
        ensures
            mode == self.predecessor(),
    {
        match self {
            PowerDisplay::Voltage => None,
            PowerDisplay::Current => Some(PowerDisplay::Voltage),
            PowerDisplay::Power => Some(PowerDisplay::Current),
        }
    }

    /// The number that the display shows of the sample.
    pub fn value(&self, power: &PowerMonitor) -> (bits: u32)
        ensures
            bits == self.shown(*power),
    {
        if power.current_is_zero() {
            0
        } else {
            match self {
                PowerDisplay::Voltage => power.voltage,
                PowerDisplay::Current => power.current,
                PowerDisplay::Power => power.power,
            }
        }
    }

    /// How the mode's number is written.
    pub fn format(&self) -> (format: NumberFormat)
        ensures
            format == self.number_format(),
    {
        match self {
            PowerDisplay::Voltage => NumberFormat { width: 2, precision: Some(3) },
            PowerDisplay::Current => NumberFormat { width: 5, precision: None },
            PowerDisplay::Power => NumberFormat { width: 5, precision: None },
        }
    }

    /// The unit that is shown behind the number.
    pub fn unit(&self) -> (text: &'static str)
        ensures
            text@ == self.unit_text(),
    {
        match self {
            PowerDisplay::Voltage => "V ",
            PowerDisplay::Current => "mA",
            PowerDisplay::Power => "mW",
        }
    }
}

/// The modes do not wrap around: a step back from the first mode and a step
/// forward from the last lead nowhere else.
pub proof fn lemma_display_mode_clamps()
    ensures
        PowerDisplay::Voltage.back() == PowerDisplay::Voltage,
        PowerDisplay::Power.forward() == PowerDisplay::Power,
        forall|mode: PowerDisplay| mode != PowerDisplay::Power ==> mode.forward().back() == mode,
        forall|mode: PowerDisplay| mode != PowerDisplay::Voltage ==> mode.back().forward() == mode,
{
}

} // verus!
