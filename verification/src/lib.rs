//! Verified core of a Linux GPIO character-device interface.
//!
//! The kernel speaks to user space through fixed-layout records and bit flags,
//! in two generations of the protocol. This crate holds the records, builds the
//! requests and decodes the replies; what it returns is stated in contracts
//! and proved. Opening files and issuing the calls is left to the caller, who
//! hands each record over as the kernel filled it in.

pub mod chip;
pub mod error;
pub mod info;
pub mod lines;
pub mod raw;
pub mod request;
pub mod text;
pub mod types;
pub mod utils;

pub use chip::Chip;
pub use error::Error;
pub use info::LineInfo;
pub use lines::{Inputs, Outputs};
pub use types::{Abi, Active, Bias, BitId, Direction, Drive, Edge, EdgeDetect, Event, LineId, Values};
