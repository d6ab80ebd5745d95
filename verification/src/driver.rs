//! The driver: which bus transaction each operation asks for, and what it
//! makes of the bus's answer.
//!
//! The driver never touches the bus. An operation begins as an `Exchange`;
//! `Qmi8658a::request` names the transaction that is due, the caller
//! performs it and hands the answer to `Exchange::resume`, which either
//! names the next state, ends with the operation's outcome, or ends with the
//! bus's error.

use vstd::prelude::*;
use crate::config::Config;
use crate::registers::{AX_L, CTRL1, CTRL7, STATUSINT, TEMP_L, WHO_AM_I};
use crate::sample::{decode_sample, i16_from_le, le_i16, sample_of, ImuData};
use crate::status::StatusFlags;

verus! {

/// One bus transaction.
#[derive(Debug, Clone, Copy, PartialEq, Eq, Structural)]
pub enum Request {
    /// Write the two bytes `register`, `value` to the device at `address`.
    Write { address: u8, register: u8, value: u8 },
    /// Write the byte `register` to the device at `address`, then read `len`
    /// bytes from it, all in one transaction.
    Read { address: u8, register: u8, len: usize },
}

/// The bus's answer to a request: its error, or a block whose first bytes
/// are those that were read. After a write, and past the length that was
/// asked for, the block's content means nothing.
pub type Reply<E> = Result<[u8; 12], E>;

/// An operation under way, named by the answer it waits for.
#[derive(Debug, Clone, Copy, PartialEq, Eq, Structural)]
pub enum Exchange {
    /// Identity: the read of WHO_AM_I is due.
    ChipId,
    /// Initialization: the write of CTRL1 is due, that of CTRL7 follows.
    Control1 { ctrl1: u8, ctrl7: u8 },
    /// Initialization: CTRL1 is written, the write of CTRL7 is due.
    Control7 { ctrl7: u8 },
    /// Temperature: the read of the two temperature bytes is due.
    Temperature,
    /// Sample: no status was seen yet; the first status read is due.
    NotAvailable,
    /// Sample: a sample is available but was not seen latched; another
    /// status read is due.
    WaitingForLock,
    /// Sample: the sample is latched; the burst read is due.
    Ready,
}

/// What an operation ends with when the bus did not fail.
#[derive(Debug, Clone, Copy, PartialEq, Eq, Structural)]
pub enum Outcome {
    /// The identity byte as the sensor gave it.
    ChipId(u8),
    /// Both control registers are written.
    Initialized,
    /// The raw temperature code.
    Temperature(i16),
    /// The sensor has no new sample in this cycle.
    NoSample,
    /// The latched sample.
    Sample(ImuData),
}

/// What follows from one answer of the bus.
#[derive(Debug, PartialEq, Eq)]
pub enum Progress<E> {
    /// The operation goes on: another transaction is due.
    Pending(Exchange),
    /// The operation is over.
    Done(Outcome),
    /// The bus failed; the operation is over and asks for nothing more.
    Failed(E),
}

impl Exchange {
    /// The transaction that is due in this state, for the device at
    /// `address`.
    pub open spec fn request_at(self, address: u8) -> Request {
        match self {
            Exchange::ChipId => Request::Read { address, register: WHO_AM_I, len: 1 },
            Exchange::Control1 { ctrl1, ctrl7 } => Request::Write {
                address,
                register: CTRL1,
                value: ctrl1,
            },
            Exchange::Control7 { ctrl7 } => Request::Write {
                address,
                register: CTRL7,
                value: ctrl7,
            },
            Exchange::Temperature => Request::Read { address, register: TEMP_L, len: 2 },
            Exchange::NotAvailable => Request::Read { address, register: STATUSINT, len: 1 },
            Exchange::WaitingForLock => Request::Read { address, register: STATUSINT, len: 1 },
            Exchange::Ready => Request::Read { address, register: AX_L, len: 12 },
        }
    }

    /// What follows when the bus answers `reply` in this state.
    pub open spec fn after<E>(self, reply: Reply<E>) -> Progress<E> {
        match reply {
            Err(error) => Progress::Failed(error),
            Ok(block) => match self {
                Exchange::ChipId => Progress::Done(Outcome::ChipId(block@[0])),
                Exchange::Control1 { ctrl1, ctrl7 } => Progress::Pending(
                    Exchange::Control7 { ctrl7 },
                ),
                Exchange::Control7 { ctrl7 } => Progress::Done(Outcome::Initialized),
                Exchange::Temperature => Progress::Done(
                    Outcome::Temperature(le_i16(block@[0], block@[1])),
                ),
                Exchange::NotAvailable => if (StatusFlags { bits: block@[0] }).available() {
                    Progress::Pending(Exchange::WaitingForLock)
                } else {
                    Progress::Done(Outcome::NoSample)
                },
                Exchange::WaitingForLock => if (StatusFlags { bits: block@[0] }).locked() {
                    Progress::Pending(Exchange::Ready)
                } else {
                    Progress::Pending(Exchange::WaitingForLock)
                },
                Exchange::Ready => Progress::Done(Outcome::Sample(sample_of(block@))),
            },
        }
    }

    /// Takes the bus's answer to the transaction that was due.
    pub fn resume<E>(self, reply: Reply<E>) -> (progress: Progress<E>)
        ensures
            progress == self.after(reply),
            (reply matches Err(error) ==> progress == Progress::Failed(error)),
            reply is Ok ==> !(progress is Failed),
    {
        let block = match reply {
            Ok(block) => block,
            Err(error) => {
                return Progress::Failed(error);
            },
        };
        match self {
            Exchange::ChipId => Progress::Done(Outcome::ChipId(block[0])),
            Exchange::Control1 { ctrl1: _, ctrl7 } => Progress::Pending(
                Exchange::Control7 { ctrl7 },
            ),
            Exchange::Control7 { ctrl7: _ } => Progress::Done(Outcome::Initialized),
            Exchange::Temperature => Progress::Done(
                Outcome::Temperature(i16_from_le(block[0], block[1])),
            ),
            Exchange::NotAvailable => {
                if StatusFlags::new(block[0]).available() {
                    Progress::Pending(Exchange::WaitingForLock)
                } else {
                    Progress::Done(Outcome::NoSample)
                }
            },
            Exchange::WaitingForLock => {
                if StatusFlags::new(block[0]).locked() {
                    Progress::Pending(Exchange::Ready)
                } else {
                    Progress::Pending(Exchange::WaitingForLock)
                }
            },
            Exchange::Ready => Progress::Done(Outcome::Sample(decode_sample(&block))),
        }
    }
}

/// The driver of one sensor: the sensor's bus address and nothing else.
#[derive(Debug, Clone, Copy, PartialEq, Eq)]
pub struct Qmi8658a {
    address: u8,
}

impl Qmi8658a {
    /// The bus address of the sensor.
    pub closed spec fn spec_address(&self) -> u8 {
        self.address
    }

    /// A driver for the sensor at `address`.
    pub fn new(address: u8) -> (driver: Self)
        ensures
            driver.address() == address,
    {
        Qmi8658a { address }
    }

    #[verifier::when_used_as_spec(spec_address)]
    pub fn address(&self) -> (address: u8)
        ensures
            address == self.spec_address(),
    {
        self.address
    }

    /// Begins the read of the identity register. It ends with
    /// `Outcome::ChipId` and the byte that the sensor gave, whatever it is.
    pub fn read_chip_id(&self) -> (exchange: Exchange)
        ensures
            exchange == Exchange::ChipId,
    {
        Exchange::ChipId
    }

    /// Begins the initialization: CTRL1, then CTRL7, each with the byte that
    /// `config` holds for it. It ends with `Outcome::Initialized`.
    pub fn initialize(&self, config: &Config) -> (exchange: Exchange)
        ensures
            exchange == (Exchange::Control1 { ctrl1: config@.ctrl1, ctrl7: config@.ctrl7 }),
    {
        Exchange::Control1 { ctrl1: config.ctrl1(), ctrl7: config.ctrl7() }
    }

    /// Begins the read of the temperature code. It ends with
    /// `Outcome::Temperature`.
    pub fn read_temperature(&self) -> (exchange: Exchange)
        ensures
            exchange == Exchange::Temperature,
    {
        Exchange::Temperature
    }

    /// Begins the read of a sample. It ends with `Outcome::NoSample` when the
    /// sensor has none, else with `Outcome::Sample` once the sensor has
    /// latched it.
    pub fn read_imu_data(&self) -> (exchange: Exchange)
        ensures
            exchange == Exchange::NotAvailable,
    {
        Exchange::NotAvailable
    }

    /// The transaction that `exchange` waits for.
    pub fn request(&self, exchange: &Exchange) -> (request: Request)
        ensures
            request == exchange.request_at(self.address()),
    {
        let address = self.address;
        match exchange {
            Exchange::ChipId => Request::Read { address, register: WHO_AM_I, len: 1 },
            Exchange::Control1 { ctrl1, ctrl7: _ } => Request::Write {
                address,
                register: CTRL1,
                value: *ctrl1,
            },
            Exchange::Control7 { ctrl7 } => Request::Write {
                address,
                register: CTRL7,
                value: *ctrl7,
            },
            Exchange::Temperature => Request::Read { address, register: TEMP_L, len: 2 },
            Exchange::NotAvailable => Request::Read { address, register: STATUSINT, len: 1 },
            Exchange::WaitingForLock => Request::Read { address, register: STATUSINT, len: 1 },
            Exchange::Ready => Request::Read { address, register: AX_L, len: 12 },
        }
    }
}

} // verus!
