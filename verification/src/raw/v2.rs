//! The second generation of the protocol: line requests.

use vstd::prelude::*;
use super::{filled, GPIO_MAX_NAME_SIZE};

verus! {

/// Most lines that one request can hold
pub const GPIO_LINES_MAX: usize = 64;

/// Most attributes that one configuration can hold
pub const GPIO_LINE_NUM_ATTRS_MAX: usize = 10;

// Flags for line
/// The line is used by the kernel or by a consumer
pub const GPIO_LINE_FLAG_USED: u64 = 0x01;

/// The active state of the line is low
pub const GPIO_LINE_FLAG_ACTIVE_LOW: u64 = 0x02;

/// The line is an input
pub const GPIO_LINE_FLAG_INPUT: u64 = 0x04;

/// The line is an output
pub const GPIO_LINE_FLAG_OUTPUT: u64 = 0x08;

/// The line detects rising edges
pub const GPIO_LINE_FLAG_EDGE_RISING: u64 = 0x10;

/// The line detects falling edges
pub const GPIO_LINE_FLAG_EDGE_FALLING: u64 = 0x20;

/// The line detects edges of both kinds
pub const GPIO_LINE_FLAG_EDGE_BOTH: u64 = 0x30;

/// The line is an open-drain output
pub const GPIO_LINE_FLAG_OPEN_DRAIN: u64 = 0x40;

/// The line is an open-source output
pub const GPIO_LINE_FLAG_OPEN_SOURCE: u64 = 0x80;

/// The line is pulled up
pub const GPIO_LINE_FLAG_BIAS_PULL_UP: u64 = 0x0100;

/// The line is pulled down
pub const GPIO_LINE_FLAG_BIAS_PULL_DOWN: u64 = 0x0200;

/// The bias of the line is switched off
pub const GPIO_LINE_FLAG_BIAS_DISABLED: u64 = 0x0400;

// Line attr ids
/// The attribute holds flags
pub const GPIO_LINE_ATTR_ID_FLAGS: u32 = 1;

/// The attribute holds the values that outputs start with
pub const GPIO_LINE_ATTR_ID_OUTPUT_VALUES: u32 = 2;

/// The attribute holds a debounce period
pub const GPIO_LINE_ATTR_ID_DEBOUNCE: u32 = 3;

// Line event edge
/// Event code of a rising edge
pub const GPIO_LINE_EVENT_RISING_EDGE: u32 = 1;

/// Event code of a falling edge
pub const GPIO_LINE_EVENT_FALLING_EDGE: u32 = 2;

/// Command number of the call that gets the information about a line
pub const GPIO_GET_LINEINFO_IOCTL_COMMAND_NUMBER: u8 = 0x05;

/// Command number of the call that gets the information about a line and
/// watches it for changes
pub const GPIO_GET_LINEINFO_WATCH_IOCTL_COMMAND_NUMBER: u8 = 0x06;

/// Command number of the call that requests a group of lines
pub const GPIO_GET_LINE_IOCTL_COMMAND_NUMBER: u8 = 0x07;

/// Command number of the call that changes the configuration of a request
pub const GPIO_LINE_SET_CONFIG_IOCTL_COMMAND_NUMBER: u8 = 0x0d;

/// Command number of the call that gets the values of a request's lines
pub const GPIO_LINE_GET_VALUES_IOCTL_COMMAND_NUMBER: u8 = 0x0e;

/// Command number of the call that sets the values of a request's lines
pub const GPIO_LINE_SET_VALUES_IOCTL_COMMAND_NUMBER: u8 = 0x0f;

/// Whether every bit of `flag` is set in `flags`.
pub open spec fn has_flag(flags: u64, flag: u64) -> bool {
    flags & flag == flag
}

/// Value of a line attribute
///
/// The kernel keeps the three kinds in the same storage and tells them apart
/// by the attribute's id; here each kind is a variant of its own.
#[derive(Debug, Clone, Copy, PartialEq, Eq, Structural)]
pub enum GpioLineAttrVal {
    /// Flags for the lines, made of the `GPIO_LINE_FLAG_*` bits
    Flags(u64),
    /// Values that outputs start with, one bit for each line
    Values(u64),
    /// Debounce period in microseconds
    DebouncePeriodUs(u32),
}

impl GpioLineAttrVal {
    /// The attribute id that goes with the kind of the value.
    pub open spec fn spec_id(&self) -> u32 {
        match self {
            GpioLineAttrVal::Flags(_) => GPIO_LINE_ATTR_ID_FLAGS,
            GpioLineAttrVal::Values(_) => GPIO_LINE_ATTR_ID_OUTPUT_VALUES,
            GpioLineAttrVal::DebouncePeriodUs(_) => GPIO_LINE_ATTR_ID_DEBOUNCE,
        }
    }

    /// The attribute id that goes with the kind of the value.
    #[verifier::when_used_as_spec(spec_id)]
    pub fn id(&self) -> (res: u32)
        ensures
            res == self.spec_id(),
    {
        match self {
            GpioLineAttrVal::Flags(_) => GPIO_LINE_ATTR_ID_FLAGS,
            GpioLineAttrVal::Values(_) => GPIO_LINE_ATTR_ID_OUTPUT_VALUES,
            GpioLineAttrVal::DebouncePeriodUs(_) => GPIO_LINE_ATTR_ID_DEBOUNCE,
        }
    }
}

impl Default for GpioLineAttrVal {
    fn default() -> (res: Self)
        ensures
            res == GpioLineAttrVal::Values(0),
    {
        Self::Values(0)
    }
}

/// A line attribute
#[derive(Debug, Clone, Copy, PartialEq, Eq, Structural)]
pub struct GpioLineAttr {
    /// Kind of the attribute: one of the `GPIO_LINE_ATTR_ID_*` numbers, or
    /// zero where the attribute is not in use
    pub id: u32,
    /// Reserved, zero
    pub padding: u32,
    /// Value of the attribute
    pub val: GpioLineAttrVal,
}

impl GpioLineAttr {
    /// Whether the attribute is not in use and every field is zero.
    pub open spec fn is_zeroed(self) -> bool {
        self == (GpioLineAttr { id: 0, padding: 0, val: GpioLineAttrVal::Values(0) })
    }

    /// Whether the id is the one that goes with the kind of the value.
    pub open spec fn is_tagged(self) -> bool {
        self.id == self.val.spec_id()
    }

    /// The attribute that holds `val`, under the id that goes with its kind.
    pub fn new(val: GpioLineAttrVal) -> (res: Self)
        ensures
            res == (GpioLineAttr { id: val.spec_id(), padding: 0, val }),
            res.is_tagged(),
    {
        Self { id: val.id(), padding: 0, val }
    }
}

impl Default for GpioLineAttr {
    fn default() -> (res: Self)
        ensures
            res.is_zeroed(),
    {
        Self { id: 0, padding: 0, val: GpioLineAttrVal::Values(0) }
    }
}

/// A line attribute and the lines that it applies to
#[derive(Debug, Clone, Copy, PartialEq, Eq, Structural)]
pub struct GpioLineConfigAttr {
    /// The attribute
    pub attr: GpioLineAttr,
    /// The lines that the attribute applies to, one bit for each position
    pub mask: u64,
}

impl GpioLineConfigAttr {
    /// Whether the attribute is not in use and every field is zero.
    pub open spec fn is_zeroed(self) -> bool {
        self.attr.is_zeroed() && self.mask == 0
    }
}

impl Default for GpioLineConfigAttr {
    fn default() -> (res: Self)
        ensures
            res.is_zeroed(),
    {
        Self { attr: GpioLineAttr::default(), mask: 0 }
    }
}

/// Configuration of a group of lines
#[derive(Debug, Clone, Copy, PartialEq, Eq)]
pub struct GpioLineConfig {
    /// Flags for all the lines, made of the `GPIO_LINE_FLAG_*` bits
    pub flags: u64,
    /// Number of attributes in use
    pub num_attrs: u32,
    /// Reserved, zero
    pub padding: [u32; 5],
    /// Attributes that differ from the flags for some of the lines
    pub attrs: [GpioLineConfigAttr; GPIO_LINE_NUM_ATTRS_MAX],
}

impl GpioLineConfig {
    /// Whether no attribute is in use and every field is zero.
    pub open spec fn is_zeroed(self) -> bool {
        &&& self.flags == 0
        &&& self.num_attrs == 0
        &&& self.padding@ =~= filled(5, 0u32)
        &&& self.attrs@.len() == GPIO_LINE_NUM_ATTRS_MAX
        &&& forall|i: int| 0 <= i < GPIO_LINE_NUM_ATTRS_MAX ==> (#[trigger] self.attrs@[i]).is_zeroed()
    }
}

impl Default for GpioLineConfig {
    fn default() -> (res: Self)
        ensures
            res.is_zeroed(),
    {
        let attr = GpioLineConfigAttr::default();
        Self { flags: 0, num_attrs: 0, padding: [0u32; 5], attrs: [attr; GPIO_LINE_NUM_ATTRS_MAX] }
    }
}

/// Request for a group of lines
#[derive(Debug, Clone, Copy, PartialEq, Eq)]
pub struct GpioLineRequest {
    /// Offsets of the lines, in the order in which their values are addressed
    pub offsets: [u32; GPIO_LINES_MAX],
    /// Label of the consumer, ended by a NUL byte
    pub consumer: [u8; GPIO_MAX_NAME_SIZE],
    /// Configuration of the lines
    pub config: GpioLineConfig,
    /// Number of lines requested
    pub num_lines: u32,
    /// Number of events that the kernel is asked to buffer; zero leaves the
    /// choice to the kernel
    pub event_buffer_size: u32,
    /// Reserved, zero
    pub padding: [u32; 5],
    /// File descriptor of the request; the kernel fills it in
    pub fd: i32,
}

impl GpioLineRequest {
    /// Whether every field is zero.
    pub open spec fn is_zeroed(self) -> bool {
        &&& self.offsets@ =~= filled(GPIO_LINES_MAX as nat, 0u32)
        &&& self.consumer@ =~= filled(GPIO_MAX_NAME_SIZE as nat, 0u8)
        &&& self.config.is_zeroed()
        &&& self.num_lines == 0
        &&& self.event_buffer_size == 0
        &&& self.padding@ =~= filled(5, 0u32)
        &&& self.fd == 0
    }
}

impl Default for GpioLineRequest {
    fn default() -> (res: Self)
        ensures
            res.is_zeroed(),
    {
        Self {
            offsets: [0u32; GPIO_LINES_MAX],
            consumer: [0u8; GPIO_MAX_NAME_SIZE],
            config: GpioLineConfig::default(),
            num_lines: 0,
            event_buffer_size: 0,
            padding: [0u32; 5],
            fd: 0,
        }
    }
}

/// Information about a GPIO line
#[derive(Debug, Clone, Copy, PartialEq, Eq)]
pub struct GpioLineInfo {
    /// Name of the line, padded with NUL bytes
    pub name: [u8; GPIO_MAX_NAME_SIZE],
    /// Label of what uses the line, padded with NUL bytes
    pub consumer: [u8; GPIO_MAX_NAME_SIZE],
    /// Offset of the line on its chip
    pub offset: u32,
    /// Number of attributes in use
    pub num_attrs: u32,
    /// State of the line, made of the `GPIO_LINE_FLAG_*` bits
    pub flags: u64,
    /// Attributes of the line
    pub attrs: [GpioLineAttr; GPIO_LINE_NUM_ATTRS_MAX],
    /// Reserved, zero
    pub padding: [u32; 4],
}

impl GpioLineInfo {
    /// Whether no attribute is in use and every field is zero.
    pub open spec fn is_zeroed(self) -> bool {
        &&& self.name@ =~= filled(GPIO_MAX_NAME_SIZE as nat, 0u8)
        &&& self.consumer@ =~= filled(GPIO_MAX_NAME_SIZE as nat, 0u8)
        &&& self.offset == 0
        &&& self.num_attrs == 0
        &&& self.flags == 0
        &&& self.attrs@.len() == GPIO_LINE_NUM_ATTRS_MAX
        &&& forall|i: int| 0 <= i < GPIO_LINE_NUM_ATTRS_MAX ==> (#[trigger] self.attrs@[i]).is_zeroed()
        &&& self.padding@ =~= filled(4, 0u32)
    }
}

impl Default for GpioLineInfo {
    fn default() -> (res: Self)
        ensures
            res.is_zeroed(),
    {
        let attr = GpioLineAttr::default();
        Self {
            name: [0u8; GPIO_MAX_NAME_SIZE],
            consumer: [0u8; GPIO_MAX_NAME_SIZE],
            offset: 0,
            num_attrs: 0,
            flags: 0,
            attrs: [attr; GPIO_LINE_NUM_ATTRS_MAX],
            padding: [0u32; 4],
        }
    }
}

/// A change of the state of a line
#[derive(Debug, Clone, Copy, PartialEq, Eq)]
pub struct GpioLineInfoChanged {
    /// The information about the line after the change
    pub info: GpioLineInfo,
    /// Estimate of the time of the change, in nanoseconds
    pub timestamp_ns: u64,
    /// Kind of the change
    pub event_type: u32,
    /// Reserved, zero
    pub padding: [u32; 5],
}

impl GpioLineInfoChanged {
    /// Whether every field is zero.
    pub open spec fn is_zeroed(self) -> bool {
        &&& self.info.is_zeroed()
        &&& self.timestamp_ns == 0
        &&& self.event_type == 0
        &&& self.padding@ =~= filled(5, 0u32)
    }
}

impl Default for GpioLineInfoChanged {
    fn default() -> (res: Self)
        ensures
            res.is_zeroed(),
    {
        Self { info: GpioLineInfo::default(), timestamp_ns: 0, event_type: 0, padding: [0u32; 5] }
    }
}

/// An edge event of a line
#[derive(Debug, Clone, Copy, PartialEq, Eq)]
pub struct GpioLineEvent {
    /// Estimate of the time of the event, in nanoseconds
    pub timestamp_ns: u64,
    /// Event code: `GPIO_LINE_EVENT_RISING_EDGE` or
    /// `GPIO_LINE_EVENT_FALLING_EDGE`
    pub id: u32,
    /// Offset of the line on its chip
    pub offset: u32,
    /// Number of the event among all events of the request
    pub seqno: u32,
    /// Number of the event among the events of its line
    pub line_seqno: u32,
    /// Reserved, zero
    pub padding: [u32; 6],
}

impl GpioLineEvent {
    /// Whether every field is zero.
    pub open spec fn is_zeroed(self) -> bool {
        &&& self.timestamp_ns == 0
        &&& self.id == 0
        &&& self.offset == 0
        &&& self.seqno == 0
        &&& self.line_seqno == 0
        &&& self.padding@ =~= filled(6, 0u32)
    }
}

impl Default for GpioLineEvent {
    fn default() -> (res: Self)
        ensures
            res.is_zeroed(),
    {
        Self { timestamp_ns: 0, id: 0, offset: 0, seqno: 0, line_seqno: 0, padding: [0u32; 6] }
    }
}

/// Values of the lines of a request, one bit for each line
#[derive(Debug, Clone, Copy, PartialEq, Eq, Structural)]
pub struct GpioLineValues {
    /// The value of the line at each position
    pub bits: u64,
    /// The positions to get or set
    pub mask: u64,
}

impl Default for GpioLineValues {
    fn default() -> (res: Self)
        ensures
            res == (GpioLineValues { bits: 0, mask: 0 }),
    {
        Self { bits: 0, mask: 0 }
    }
}

} // verus!
