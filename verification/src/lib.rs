//! Driver core for the QMI8658A inertial measurement unit.
//!
//! The crate holds the register protocol of the sensor and none of the bus
//! access: every operation is a small state machine that says which bus
//! transaction is due next and what follows from the bus's answer. The
//! surrounding firmware performs the transactions.

pub mod config;
pub mod driver;
pub mod registers;
pub mod sample;
pub mod status;
pub mod transcript;

pub use config::{Config, ConfigOption};
pub use driver::{Exchange, Outcome, Progress, Qmi8658a, Reply, Request};
pub use sample::ImuData;
pub use status::StatusFlags;
pub use transcript::Transcript;
