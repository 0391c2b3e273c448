//! The MAX17048 fuel gauge: which transfers on the sensor bus an operation
//! takes, and what the bytes that come back mean.
//!
//! The driver does not own the bus. Each operation names its first transfer;
//! the owner of the bus carries it out and hands the reply to
//! [`Max17048::complete`], which names the next transfer or the result.

use vstd::prelude::*;

verus! {

/// The device's address on the bus.
pub const MAX17048_ADDR: u8 = 0x36;

/// The compensation value that the device starts with.
pub const DEFAULT_RCOMP: u8 = 0x97;

/// The register of the cell voltage.
pub const REGISTER_VCELL: u8 = 0x02;

/// The register of the state of charge.
pub const REGISTER_SOC: u8 = 0x04;

/// The register of the chip's version.
pub const REGISTER_VERSION: u8 = 0x08;

/// The register whose high byte is the compensation value.
pub const REGISTER_CONFIG: u8 = 0x0C;

/// The register of the charge rate.
pub const REGISTER_CRATE: u8 = 0x16;

/// One transaction on the bus.
#[derive(Clone, Copy, Debug, PartialEq, Eq, Structural)]
pub enum Transfer {
    /// Write the number of a register, then read two bytes.
    WriteRead { address: u8, register: u8 },
    /// Write one byte.
    WriteOne { address: u8, byte: u8 },
    /// Write two bytes.
    WriteTwo { address: u8, first: u8, second: u8 },
}

/// How a transaction ended.
#[derive(Clone, Copy, Debug, PartialEq, Eq)]
pub enum Reply<E> {
    /// The two bytes that were read, in the order of their arrival.
    Read(u8, u8),
    /// The bytes were written.
    Written,
    /// The bus reported an error.
    Failed(E),
}

/// What an operation does next, or how it ended.
#[derive(Clone, Copy, Debug, PartialEq, Eq)]
pub enum Outcome<E> {
    /// The operation goes on with this transfer.
    Next(Transfer),
    /// The operation was a read, and this is its value.
    Value(u16),
    /// The operation was a write, and it is done.
    Written,
    /// The bus reported this error, and the operation is given up.
    Failed(E),
    /// The reply answers no transfer that the driver waits for. Nothing
    /// changed.
    Ignored,
}

/// What the driver is in the middle of.
#[derive(Clone, Copy, Debug, PartialEq, Eq, Structural)]
pub enum Operation {
    /// Nothing.
    Idle,
    /// A register is being read. Where `high_byte` is set only the first of
    /// its two bytes counts.
    Reading { register: u8, high_byte: bool },
    /// The configuration is being read, to have `rcomp` written into its high
    /// byte.
    Compensating { rcomp: u8 },
    /// The number of a register is being written; its new value follows.
    Addressing { register: u8, value: u16 },
    /// The new value of a register is being written.
    Storing { value: u16 },
}

/// The number that two bytes stand for, the first byte being the higher.
pub open spec fn word(first: u8, second: u8) -> u16 {
    (first * 256 + second) as u16
}

/// The new value of the configuration: `rcomp` as its high byte above the low
/// byte of the old value.
pub open spec fn compensated(config: u16, rcomp: u8) -> u16 {
    (rcomp * 256 + config % 256) as u16
}

/// The transfer that the operation waits for.
pub open spec fn awaited(operation: Operation) -> Option<Transfer> {
    match operation {
        Operation::Idle => None,
        Operation::Reading { register, high_byte } => Some(
            Transfer::WriteRead { address: MAX17048_ADDR, register },
        ),
        Operation::Compensating { rcomp } => Some(
            Transfer::WriteRead { address: MAX17048_ADDR, register: REGISTER_CONFIG },
        ),
        Operation::Addressing { register, value } => Some(
            Transfer::WriteOne { address: MAX17048_ADDR, byte: register },
        ),
        Operation::Storing { value } => Some(
            Transfer::WriteTwo {
                address: MAX17048_ADDR,
                first: (value / 256) as u8,
                second: (value % 256) as u8,
            },
        ),
    }
}

/// Whether the reply is of the kind that the operation's transfer ends with:
/// bytes for a read, a confirmation for a write, a failure for either.
pub open spec fn answers<E>(operation: Operation, reply: Reply<E>) -> bool {
    match (operation, reply) {
        (Operation::Idle, _) => false,
        (_, Reply::Failed(_)) => true,
        (Operation::Reading { .. }, Reply::Read(_, _)) => true,
        (Operation::Compensating { .. }, Reply::Read(_, _)) => true,
        (Operation::Addressing { .. }, Reply::Written) => true,
        (Operation::Storing { .. }, Reply::Written) => true,
        _ => false,
    }
}

/// What the driver is in the middle of after the reply.
pub open spec fn continued<E>(operation: Operation, reply: Reply<E>) -> Operation {
    if !answers(operation, reply) {
        operation
    } else {
        match (operation, reply) {
            (Operation::Compensating { rcomp }, Reply::Read(first, second)) => Operation::Addressing {
                register: REGISTER_CONFIG,
                value: compensated(word(first, second), rcomp),
            },
            (Operation::Addressing { register, value }, Reply::Written) => Operation::Storing {
                value,
            },
            _ => Operation::Idle,
        }
    }
}

/// What the driver says to the reply.
pub open spec fn answered<E>(operation: Operation, reply: Reply<E>) -> Outcome<E> {
    if !answers(operation, reply) {
        Outcome::Ignored
    } else {
        match (operation, reply) {
            (_, Reply::Failed(error)) => Outcome::Failed(error),
            (Operation::Reading { register, high_byte }, Reply::Read(first, second)) => Outcome::Value(
                if high_byte {
                    first as u16
                } else {
                    word(first, second)
                },
            ),
            (Operation::Storing { value }, Reply::Written) => Outcome::Written,
            _ => Outcome::Next(awaited(continued(operation, reply)).unwrap()),
        }
    }
}

/// The state of the driver.
pub struct Max17048View {
    /// The two bytes that were read last.
    pub recv_buffer: Seq<u8>,
    pub operation: Operation,
}

/// The driver of one fuel gauge.
pub struct Max17048 {
    recv_buffer: [u8; 2],
    operation: Operation,
}

impl View for Max17048 {
    type V = Max17048View;

    closed spec fn view(&self) -> Max17048View {
        Max17048View { recv_buffer: self.recv_buffer@, operation: self.operation }
    }
}

/// The number that two bytes stand for, the first byte being the higher.
fn decode(first: u8, second: u8) -> (value: u16)
    ensures
        value == word(first, second),
        value / 256 == first,
        value % 256 == second,
{
    let value = (first as u16) << 8 | second as u16;
    assert(value == first * 256 + second && value / 256 == first && value % 256 == second)
        by (bit_vector)
        requires
            value == (first as u16) << 8 | second as u16,
    ;
    value
}

impl Max17048 {
    /// A driver that has nothing read yet and is about to set the
    /// compensation to its default, 0x97: the first transfer of that is the
    /// reading of the configuration.
    pub fn new() -> (driver: Self)
        ensures
            driver@.recv_buffer == seq![0u8, 0u8],
            driver@.operation == (Operation::Compensating { rcomp: DEFAULT_RCOMP }),
    {
        Max17048 {
            recv_buffer: [0u8, 0u8],
            operation: Operation::Compensating { rcomp: DEFAULT_RCOMP },
        }
    }

    /// The transfer that the driver waits for, if it is in the middle of an
    /// operation.
    pub fn transfer(&self) -> (transfer: Option<Transfer>)
        ensures
            transfer == awaited(self@.operation),
    {
        match self.operation {
            Operation::Idle => None,
            Operation::Reading { register, high_byte } => Some(
                Transfer::WriteRead { address: MAX17048_ADDR, register },
            ),
            Operation::Compensating { rcomp } => Some(
                Transfer::WriteRead { address: MAX17048_ADDR, register: REGISTER_CONFIG },
            ),
            Operation::Addressing { register, value } => Some(
                Transfer::WriteOne { address: MAX17048_ADDR, byte: register },
            ),
            Operation::Storing { value } => {
                let msb = ((value & 0xFF00) >> 8) as u8;
                let lsb = ((value & 0x00FF) >> 0) as u8;
                assert(msb == value / 256 && lsb == value % 256) by (bit_vector)
                    requires
                        msb == ((value & 0xFF00) >> 8) as u8,
                        lsb == ((value & 0x00FF) >> 0) as u8,
                ;
                Some(Transfer::WriteTwo { address: MAX17048_ADDR, first: msb, second: lsb })
            },
        }
    }

    /// Begins the reading of the chip's version, register 0x08. An operation
    /// that was not finished is given up.
    pub fn version(&mut self) -> (transfer: Transfer)
        ensures
            final(self)@.operation == (Operation::Reading {
                register: REGISTER_VERSION,
                high_byte: false,
            }),
            final(self)@.recv_buffer == old(self)@.recv_buffer,
            Some(transfer) == awaited(final(self)@.operation),
    {
        self.read(REGISTER_VERSION)
    }

    /// Begins the reading of the state of charge in percent: the high byte of
    /// register 0x04. An operation that was not finished is given up.
    pub fn soc(&mut self) -> (transfer: Transfer)
        ensures
            final(self)@.operation == (Operation::Reading {
                register: REGISTER_SOC,
                high_byte: true,
            }),
            final(self)@.recv_buffer == old(self)@.recv_buffer,
            Some(transfer) == awaited(final(self)@.operation),
    {
        self.operation = Operation::Reading { register: REGISTER_SOC, high_byte: true };
        Transfer::WriteRead { address: MAX17048_ADDR, register: REGISTER_SOC }
    }

    /// Begins the reading of the charge rate, register 0x16, whose unit is
    /// 0.208 percent an hour. An operation that was not finished is given up.
    pub fn charge_rate(&mut self) -> (transfer: Transfer)
        ensures
            final(self)@.operation == (Operation::Reading {
                register: REGISTER_CRATE,
                high_byte: false,
            }),
            final(self)@.recv_buffer == old(self)@.recv_buffer,
            Some(transfer) == awaited(final(self)@.operation),
    {
        self.read(REGISTER_CRATE)
    }

    /// Begins the reading of the cell voltage, register 0x02, whose unit is
    /// 78.125 microvolts. An operation that was not finished is given up.
    pub fn vcell(&mut self) -> (transfer: Transfer)
        ensures
            final(self)@.operation == (Operation::Reading {
                register: REGISTER_VCELL,
                high_byte: false,
            }),
            final(self)@.recv_buffer == old(self)@.recv_buffer,
            Some(transfer) == awaited(final(self)@.operation),
    {
        self.read(REGISTER_VCELL)
    }

    /// Begins the setting of the compensation value: the configuration,
    /// register 0x0C, is read, and written back with `rcomp` as its high byte
    /// and its low byte as it was. An operation that was not finished is given
    /// up.
    pub fn compensation(&mut self, rcomp: u8) -> (transfer: Transfer)
        ensures
            final(self)@.operation == (Operation::Compensating { rcomp }),
            final(self)@.recv_buffer == old(self)@.recv_buffer,
            Some(transfer) == awaited(final(self)@.operation),
    {
        self.operation = Operation::Compensating { rcomp };
        Transfer::WriteRead { address: MAX17048_ADDR, register: REGISTER_CONFIG }
    }

    /// Begins the reading of the register `reg`: its number is written and two
    /// bytes are read, the higher first. An operation that was not finished is
    /// given up.
    pub fn read(&mut self, reg: u8) -> (transfer: Transfer)
        ensures
            final(self)@.operation == (Operation::Reading { register: reg, high_byte: false }),
            final(self)@.recv_buffer == old(self)@.recv_buffer,
            Some(transfer) == awaited(final(self)@.operation),
    {
        self.operation = Operation::Reading { register: reg, high_byte: false };
        Transfer::WriteRead { address: MAX17048_ADDR, register: reg }
    }

    /// Begins the writing of `value` to the register `reg`: first the
    /// register's number is written, then the value, its high byte first. An
    /// operation that was not finished is given up.
    pub fn write(&mut self, reg: u8, value: u16) -> (transfer: Transfer)
        ensures
            final(self)@.operation == (Operation::Addressing { register: reg, value }),
            final(self)@.recv_buffer == old(self)@.recv_buffer,
            Some(transfer) == awaited(final(self)@.operation),
    {
        self.operation = Operation::Addressing { register: reg, value };
        Transfer::WriteOne { address: MAX17048_ADDR, byte: reg }
    }

    /// Takes the reply to the transfer that the driver waits for, and says how
    /// the operation goes on. Bytes that answer a read are kept as the last
    /// bytes read. A failure ends the operation. A reply that answers no
    /// transfer the driver waits for changes nothing.
    pub fn complete<E>(&mut self, reply: Reply<E>) -> (outcome: Outcome<E>)
        ensures
            outcome == answered(old(self)@.operation, reply),
            final(self)@.operation == continued(old(self)@.operation, reply),
            final(self)@.recv_buffer == match reply {
                Reply::Read(first, second) if answers(old(self)@.operation, reply) => seq![
                    first,
                    second,
                ],
                _ => old(self)@.recv_buffer,
            },
    {
        match (self.operation, reply) {
            (Operation::Idle, _) => Outcome::Ignored,
            (_, Reply::Failed(error)) => {
                self.operation = Operation::Idle;
                Outcome::Failed(error)
            },
            (Operation::Reading { register, high_byte }, Reply::Read(first, second)) => {
                self.recv_buffer = [first, second];
                self.operation = Operation::Idle;
                let value = decode(self.recv_buffer[0], self.recv_buffer[1]);
                if high_byte {
                    Outcome::Value(value / 256)
                } else {
                    Outcome::Value(value)
                }
            },
            (Operation::Compensating { rcomp }, Reply::Read(first, second)) => {
                self.recv_buffer = [first, second];
                let mut value = decode(self.recv_buffer[0], self.recv_buffer[1]);
                let ghost config = value;
                value &= 0x00FF;
                value |= (rcomp as u16) << 8;
                assert(value == rcomp * 256 + config % 256) by (bit_vector)
                    requires
                        value == (config & 0x00FF) | ((rcomp as u16) << 8),
                ;
                self.write(REGISTER_CONFIG, value);
                Outcome::Next(Transfer::WriteOne { address: MAX17048_ADDR, byte: REGISTER_CONFIG })
            },
            (Operation::Addressing { register, value }, Reply::Written) => {
                self.operation = Operation::Storing { value };
                Outcome::Next(self.transfer().unwrap())
            },
            (Operation::Storing { value }, Reply::Written) => {
                self.operation = Operation::Idle;
                Outcome::Written
            },
            _ => Outcome::Ignored,
        }
    }
}

} // verus!
