//! The first generation of the protocol: line handles.

use vstd::prelude::*;
use super::{filled, GPIO_MAX_NAME_SIZE};

verus! {

// Flags for line state
/// The line is used by the kernel or by a consumer
pub const GPIOLINE_FLAG_KERNEL: u32 = 0x01;

/// The line is an output
pub const GPIOLINE_FLAG_IS_OUT: u32 = 0x02;

/// The active state of the line is low
pub const GPIOLINE_FLAG_ACTIVE_LOW: u32 = 0x04;

/// The line is an open-drain output
pub const GPIOLINE_FLAG_OPEN_DRAIN: u32 = 0x08;

/// The line is an open-source output
pub const GPIOLINE_FLAG_OPEN_SOURCE: u32 = 0x10;

/// The line is pulled up
pub const GPIOLINE_FLAG_BIAS_PULL_UP: u32 = 0x20;

/// The line is pulled down
pub const GPIOLINE_FLAG_BIAS_PULL_DOWN: u32 = 0x40;

// Flags for line requests
/// Request the lines as inputs
pub const GPIOHANDLE_REQUEST_INPUT: u32 = 0x01;

/// Request the lines as outputs
pub const GPIOHANDLE_REQUEST_OUTPUT: u32 = 0x02;

/// Request the lines with a low active state
pub const GPIOHANDLE_REQUEST_ACTIVE_LOW: u32 = 0x04;

/// Request the lines as open-drain outputs
pub const GPIOHANDLE_REQUEST_OPEN_DRAIN: u32 = 0x08;

/// Request the lines as open-source outputs
pub const GPIOHANDLE_REQUEST_OPEN_SOURCE: u32 = 0x10;

/// Request the lines pulled up
pub const GPIOHANDLE_REQUEST_BIAS_PULL_UP: u32 = 0x20;

/// Request the lines pulled down
pub const GPIOHANDLE_REQUEST_BIAS_PULL_DOWN: u32 = 0x40;

/// Request the lines with their bias switched off
pub const GPIOHANDLE_REQUEST_BIAS_DISABLE: u32 = 0x80;

/// Report rising edges
pub const GPIOEVENT_REQUEST_RISING_EDGE: u32 = 0x01;

/// Report falling edges
pub const GPIOEVENT_REQUEST_FALLING_EDGE: u32 = 0x02;

/// Report edges of both kinds
pub const GPIOEVENT_REQUEST_BOTH_EDGES: u32 = 0x03;

/// Event code of a rising edge
pub const GPIOEVENT_EVENT_RISING_EDGE: u32 = 0x01;

/// Event code of a falling edge
pub const GPIOEVENT_EVENT_FALLING_EDGE: u32 = 0x02;

/// Most lines that one handle can hold
pub const GPIOHANDLES_MAX: usize = 64;

/// Command number of the call that gets the information about a line
pub const GPIO_GET_LINEINFO_IOCTL_COMMAND_NUMBER: u8 = 0x02;

/// Command number of the call that requests a line handle
pub const GPIO_GET_LINEHANDLE_IOCTL_COMMAND_NUMBER: u8 = 0x03;

/// Command number of the call that requests a line event handle
pub const GPIO_GET_LINEEVENT_IOCTL_COMMAND_NUMBER: u8 = 0x04;

/// Command number of the call that gets the values of a handle's lines
pub const GPIOHANDLE_GET_LINE_VALUES_IOCTL_COMMAND_NUMBER: u8 = 0x08;

/// Command number of the call that sets the values of a handle's lines
pub const GPIOHANDLE_SET_LINE_VALUES_IOCTL_COMMAND_NUMBER: u8 = 0x09;

/// Command number of the call that changes the configuration of a handle
pub const GPIOHANDLE_SET_CONFIG_IOCTL_COMMAND_NUMBER: u8 = 0x0a;

/// Command number of the call that gets the information about a line and
/// watches it for changes
pub const GPIO_GET_LINEINFO_WATCH_IOCTL_COMMAND_NUMBER: u8 = 0x0b;

/// Whether every bit of `flag` is set in `flags`.
pub open spec fn has_flag(flags: u32, flag: u32) -> bool {
    flags & flag == flag
}

/// Information about a GPIO line
#[derive(Debug, Clone, Copy, PartialEq, Eq)]
pub struct GpioLineInfo {
    /// Offset of the line on its chip
    pub line_offset: u32,
    /// State of the line, made of the `GPIOLINE_FLAG_*` bits
    pub flags: u32,
    /// Name of the line, padded with NUL bytes
    pub name: [u8; GPIO_MAX_NAME_SIZE],
    /// Label of what uses the line, padded with NUL bytes
    pub consumer: [u8; GPIO_MAX_NAME_SIZE],
}

impl GpioLineInfo {
    /// Whether every field is zero.
    pub open spec fn is_zeroed(self) -> bool {
        &&& self.line_offset == 0
        &&& self.flags == 0
        &&& self.name@ =~= filled(GPIO_MAX_NAME_SIZE as nat, 0u8)
        &&& self.consumer@ =~= filled(GPIO_MAX_NAME_SIZE as nat, 0u8)
    }
}

impl Default for GpioLineInfo {
    fn default() -> (res: Self)
        ensures
            res.is_zeroed(),
    {
        Self {
            line_offset: 0,
            flags: 0,
            name: [0u8; GPIO_MAX_NAME_SIZE],
            consumer: [0u8; GPIO_MAX_NAME_SIZE],
        }
    }
}

/// Request for a handle on a group of lines
#[derive(Debug, Clone, Copy, PartialEq, Eq)]
pub struct GpioHandleRequest {
    /// Offsets of the lines, in the order in which their values are addressed
    pub line_offsets: [u32; GPIOHANDLES_MAX],
    /// What is asked of the lines, made of the `GPIOHANDLE_REQUEST_*` bits
    pub flags: u32,
    /// Values that outputs start with
    pub default_values: [u8; GPIOHANDLES_MAX],
    /// Label of the consumer, ended by a NUL byte
    pub consumer_label: [u8; GPIO_MAX_NAME_SIZE],
    /// Number of lines requested
    pub lines: u32,
    /// File descriptor of the handle; the kernel fills it in
    pub fd: i32,
}

impl GpioHandleRequest {
    /// Whether every field is zero.
    pub open spec fn is_zeroed(self) -> bool {
        &&& self.line_offsets@ =~= filled(GPIOHANDLES_MAX as nat, 0u32)
        &&& self.flags == 0
        &&& self.default_values@ =~= filled(GPIOHANDLES_MAX as nat, 0u8)
        &&& self.consumer_label@ =~= filled(GPIO_MAX_NAME_SIZE as nat, 0u8)
        &&& self.lines == 0
        &&& self.fd == 0
    }
}

impl Default for GpioHandleRequest {
    fn default() -> (res: Self)
        ensures
            res.is_zeroed(),
    {
        Self {
            line_offsets: [0u32; GPIOHANDLES_MAX],
            flags: 0,
            default_values: [0u8; GPIOHANDLES_MAX],
            consumer_label: [0u8; GPIO_MAX_NAME_SIZE],
            lines: 0,
            fd: 0,
        }
    }
}

/// Request for the edge events of one line
#[derive(Debug, Clone, Copy, PartialEq, Eq)]
pub struct GpioEventRequest {
    /// Offset of the line
    pub lineoffset: u32,
    /// What is asked of the line, made of the `GPIOHANDLE_REQUEST_*` bits
    pub handleflags: u32,
    /// Which edges to report, made of the `GPIOEVENT_REQUEST_*` bits
    pub eventflags: u32,
    /// Label of the consumer, ended by a NUL byte
    pub consumer_label: [u8; GPIO_MAX_NAME_SIZE],
    /// File descriptor of the event handle; the kernel fills it in
    pub fd: i32,
}

impl GpioEventRequest {
    /// Whether every field is zero.
    pub open spec fn is_zeroed(self) -> bool {
        &&& self.lineoffset == 0
        &&& self.handleflags == 0
        &&& self.eventflags == 0
        &&& self.consumer_label@ =~= filled(GPIO_MAX_NAME_SIZE as nat, 0u8)
        &&& self.fd == 0
    }
}

impl Default for GpioEventRequest {
    fn default() -> (res: Self)
        ensures
            res.is_zeroed(),
    {
        Self {
            lineoffset: 0,
            handleflags: 0,
            eventflags: 0,
            consumer_label: [0u8; GPIO_MAX_NAME_SIZE],
            fd: 0,
        }
    }
}

/// New configuration for the lines of a handle
#[derive(Debug, Clone, Copy, PartialEq, Eq)]
pub struct GpioHandleConfig {
    /// What is asked of the lines, made of the `GPIOHANDLE_REQUEST_*` bits
    pub flags: u32,
    /// Values that outputs start with
    pub default_values: [u8; GPIOHANDLES_MAX],
    /// Reserved, zero
    pub padding: [u32; 4],
}

impl GpioHandleConfig {
    /// Whether every field is zero.
    pub open spec fn is_zeroed(self) -> bool {
        &&& self.flags == 0
        &&& self.default_values@ =~= filled(GPIOHANDLES_MAX as nat, 0u8)
        &&& self.padding@ =~= filled(4, 0u32)
    }
}

impl Default for GpioHandleConfig {
    fn default() -> (res: Self)
        ensures
            res.is_zeroed(),
    {
        Self { flags: 0, default_values: [0u8; GPIOHANDLES_MAX], padding: [0u32; 4] }
    }
}

/// Values of the lines of a handle, one byte for each line
#[derive(Debug, Clone, Copy, PartialEq, Eq)]
pub struct GpioHandleData {
    /// The value of the line at each position: zero is inactive, anything
    /// else is active
    pub values: [u8; GPIOHANDLES_MAX],
}

impl GpioHandleData {
    /// Whether every field is zero.
    pub open spec fn is_zeroed(self) -> bool {
        self.values@ =~= filled(GPIOHANDLES_MAX as nat, 0u8)
    }
}

impl Default for GpioHandleData {
    fn default() -> (res: Self)
        ensures
            res.is_zeroed(),
    {
        Self { values: [0u8; GPIOHANDLES_MAX] }
    }
}

/// An edge event of a line
#[derive(Debug, Clone, Copy, PartialEq, Eq)]
pub struct GpioEventData {
    /// Estimate of the time of the event, in nanoseconds
    pub timestamp: u64,
    /// Event code: `GPIOEVENT_EVENT_RISING_EDGE` or
    /// `GPIOEVENT_EVENT_FALLING_EDGE`
    pub id: u32,
}

impl Default for GpioEventData {
    fn default() -> (res: Self)
        ensures
            res == (GpioEventData { timestamp: 0, id: 0 }),
    {
        Self { timestamp: 0, id: 0 }
    }
}

} // verus!
