//! Records and numbers of the kernel's GPIO character-device protocol.
//!
//! The records mirror the kernel's structures field by field, in the kernel's
//! order, reserved fields included. The two generations of the protocol have
//! a module each; what both share stands here.

use vstd::prelude::*;
use crate::types::LineId;

pub mod v1;
pub mod v2;

verus! {

/// The type number of every GPIO control call.
pub const GPIO_MAGIC: u8 = 0xB4;

/// Size of a name, label or consumer field, the NUL byte at its end included.
pub const GPIO_MAX_NAME_SIZE: usize = 32;

/// Command number of the call that gets the chip information.
pub const GPIO_GET_CHIPINFO_IOCTL_COMMAND_NUMBER: u8 = 0x01;

/// A sequence of `len` items that are all `item`.
pub open spec fn filled<T>(len: nat, item: T) -> Seq<T> {
    Seq::new(len, |i: int| item)
}

/// Information about a GPIO chip
#[derive(Debug, Clone, Copy, PartialEq, Eq)]
pub struct GpioChipInfo {
    /// Name of the chip, padded with NUL bytes
    pub name: [u8; GPIO_MAX_NAME_SIZE],
    /// Label of the chip, padded with NUL bytes; may be empty
    pub label: [u8; GPIO_MAX_NAME_SIZE],
    /// Number of lines of the chip
    pub lines: u32,
}

impl GpioChipInfo {
    /// Whether every field is zero.
    pub open spec fn is_zeroed(self) -> bool {
        &&& self.name@ =~= filled(GPIO_MAX_NAME_SIZE as nat, 0u8)
        &&& self.label@ =~= filled(GPIO_MAX_NAME_SIZE as nat, 0u8)
        &&& self.lines == 0
    }
}

impl Default for GpioChipInfo {
    fn default() -> (res: Self)
        ensures
            res.is_zeroed(),
    {
        Self { name: [0u8; GPIO_MAX_NAME_SIZE], label: [0u8; GPIO_MAX_NAME_SIZE], lines: 0 }
    }
}

/// The kernel's answer to a question about one line, in either generation.
#[derive(Debug, Clone, Copy, PartialEq, Eq)]
pub enum LineInfoData {
    /// First generation
    V1(v1::GpioLineInfo),
    /// Second generation
    V2(v2::GpioLineInfo),
}

/// A request for a group of lines, in either generation.
#[derive(Debug, Clone, Copy, PartialEq, Eq)]
pub enum LineRequestData {
    /// First generation
    V1(v1::GpioHandleRequest),
    /// Second generation
    V2(v2::GpioLineRequest),
}

/// The values of a group of lines as the kernel takes and gives them, in
/// either generation.
#[derive(Debug, Clone, Copy, PartialEq, Eq)]
pub enum LineValuesData {
    /// First generation: one byte for each line
    V1(v1::GpioHandleData),
    /// Second generation: one bit for each line
    V2(v2::GpioLineValues),
}

/// An edge event as it is read from the kernel, in either generation.
#[derive(Debug, Clone, Copy, PartialEq, Eq)]
pub enum LineEventData {
    /// First generation: the record does not say where the edge was seen, so
    /// the offset of the line that was watched comes with it
    V1 {
        /// Offset of the line that was watched
        line: LineId,
        /// The record
        event: v1::GpioEventData,
    },
    /// Second generation
    V2(v2::GpioLineEvent),
}

} // verus!
