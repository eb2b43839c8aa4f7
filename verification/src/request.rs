//! Requests for groups of lines.
//!
//! Each generation of the protocol has flags of its own for the settings of
//! a request. The tables below are kept apart on purpose: the same setting
//! stands at different bits in the two generations.

use vstd::prelude::*;
use vstd::string::*;
use crate::error::Error;
use crate::lines::LINES_MAX;
use crate::raw::{filled, v1, v2, LineRequestData, GPIO_MAX_NAME_SIZE};
use crate::types::{Abi, Active, Bias, Direction, Drive, EdgeDetect, LineId};
use crate::utils::{check_len, fits, fits_str, safe_set_str, trim_nul};

verus! {

/// The settings that all lines of a request share.
#[derive(Debug, Clone, Copy, PartialEq, Eq, Structural, Hash)]
pub struct LineSettings {
    /// Whether the lines are inputs or outputs
    pub direction: Direction,
    /// Active state of the lines
    pub active: Active,
    /// Edge detection of the lines
    pub edge: EdgeDetect,
    /// Input bias of the lines
    pub bias: Bias,
    /// Output drive of the lines
    pub drive: Drive,
}

/// The first-generation flag for a direction.
pub open spec fn v1_direction_flag(direction: Direction) -> u32 {
    match direction {
        Direction::Input => v1::GPIOHANDLE_REQUEST_INPUT,
        Direction::Output => v1::GPIOHANDLE_REQUEST_OUTPUT,
    }
}

/// The first-generation flag for an active state.
pub open spec fn v1_active_flag(active: Active) -> u32 {
    match active {
        Active::Low => v1::GPIOHANDLE_REQUEST_ACTIVE_LOW,
        Active::High => 0,
    }
}

/// The first-generation flag for a bias.
pub open spec fn v1_bias_flag(bias: Bias) -> u32 {
    match bias {
        Bias::PullUp => v1::GPIOHANDLE_REQUEST_BIAS_PULL_UP,
        Bias::PullDown => v1::GPIOHANDLE_REQUEST_BIAS_PULL_DOWN,
        Bias::Disable => v1::GPIOHANDLE_REQUEST_BIAS_DISABLE,
    }
}

/// The first-generation flag for a drive.
pub open spec fn v1_drive_flag(drive: Drive) -> u32 {
    match drive {
        Drive::OpenDrain => v1::GPIOHANDLE_REQUEST_OPEN_DRAIN,
        Drive::OpenSource => v1::GPIOHANDLE_REQUEST_OPEN_SOURCE,
        Drive::PushPull => 0,
    }
}

/// The flags of a first-generation request. A handle reports no edges, so
/// the edge detection has no flag here.
pub open spec fn v1_request_flags(settings: LineSettings) -> u32 {
    v1_direction_flag(settings.direction) | v1_active_flag(settings.active) | v1_bias_flag(
        settings.bias,
    ) | v1_drive_flag(settings.drive)
}

/// The second-generation flag for a direction.
pub open spec fn v2_direction_flag(direction: Direction) -> u64 {
    match direction {
        Direction::Input => v2::GPIO_LINE_FLAG_INPUT,
        Direction::Output => v2::GPIO_LINE_FLAG_OUTPUT,
    }
}

/// The second-generation flag for an active state.
pub open spec fn v2_active_flag(active: Active) -> u64 {
    match active {
        Active::Low => v2::GPIO_LINE_FLAG_ACTIVE_LOW,
        Active::High => 0,
    }
}

/// The second-generation flags for an edge detection.
pub open spec fn v2_edge_flag(edge: EdgeDetect) -> u64 {
    match edge {
        EdgeDetect::Rising => v2::GPIO_LINE_FLAG_EDGE_RISING,
        EdgeDetect::Falling => v2::GPIO_LINE_FLAG_EDGE_FALLING,
        EdgeDetect::Both => v2::GPIO_LINE_FLAG_EDGE_BOTH,
        EdgeDetect::Disable => 0,
    }
}

/// The second-generation flag for a bias.
pub open spec fn v2_bias_flag(bias: Bias) -> u64 {
    match bias {
        Bias::PullUp => v2::GPIO_LINE_FLAG_BIAS_PULL_UP,
        Bias::PullDown => v2::GPIO_LINE_FLAG_BIAS_PULL_DOWN,
        Bias::Disable => v2::GPIO_LINE_FLAG_BIAS_DISABLED,
    }
}

/// The second-generation flag for a drive.
pub open spec fn v2_drive_flag(drive: Drive) -> u64 {
    match drive {
        Drive::OpenDrain => v2::GPIO_LINE_FLAG_OPEN_DRAIN,
        Drive::OpenSource => v2::GPIO_LINE_FLAG_OPEN_SOURCE,
        Drive::PushPull => 0,
    }
}

/// The flags of a second-generation request.
pub open spec fn v2_request_flags(settings: LineSettings) -> u64 {
    v2_direction_flag(settings.direction) | v2_active_flag(settings.active) | v2_edge_flag(
        settings.edge,
    ) | v2_bias_flag(settings.bias) | v2_drive_flag(settings.drive)
}

/// The flags of a first-generation request say what was asked, and nothing
/// else: each flag is set exactly where its setting was chosen. An open-drain
/// drive sets the open-drain flag and not the open-source flag, an
/// open-source drive the other way round, and a push-pull drive neither.
pub proof fn lemma_v1_request_flags(settings: LineSettings)
    ensures
        v1::has_flag(v1_request_flags(settings), v1::GPIOHANDLE_REQUEST_INPUT) <==> settings.direction
            == Direction::Input,
        v1::has_flag(v1_request_flags(settings), v1::GPIOHANDLE_REQUEST_OUTPUT) <==> settings.direction
            == Direction::Output,
        v1::has_flag(v1_request_flags(settings), v1::GPIOHANDLE_REQUEST_ACTIVE_LOW) <==> settings.active
            == Active::Low,
        v1::has_flag(v1_request_flags(settings), v1::GPIOHANDLE_REQUEST_OPEN_DRAIN) <==> settings.drive
            == Drive::OpenDrain,
        v1::has_flag(v1_request_flags(settings), v1::GPIOHANDLE_REQUEST_OPEN_SOURCE) <==> settings.drive
            == Drive::OpenSource,
        v1::has_flag(v1_request_flags(settings), v1::GPIOHANDLE_REQUEST_BIAS_PULL_UP) <==> settings.bias
            == Bias::PullUp,
        v1::has_flag(v1_request_flags(settings), v1::GPIOHANDLE_REQUEST_BIAS_PULL_DOWN) <==> settings.bias
            == Bias::PullDown,
        v1::has_flag(v1_request_flags(settings), v1::GPIOHANDLE_REQUEST_BIAS_DISABLE) <==> settings.bias
            == Bias::Disable,
        v1_request_flags(settings) & !0xffu32 == 0,
{
    let d = v1_direction_flag(settings.direction);
    let a = v1_active_flag(settings.active);
    let b = v1_bias_flag(settings.bias);
    let o = v1_drive_flag(settings.drive);
    assert({
        let flags = d | a | b | o;
        &&& (flags & 1 == 1) == (d == 1)
        &&& (flags & 2 == 2) == (d == 2)
        &&& (flags & 4 == 4) == (a == 4)
        &&& (flags & 8 == 8) == (o == 8)
        &&& (flags & 16 == 16) == (o == 16)
        &&& (flags & 32 == 32) == (b == 32)
        &&& (flags & 64 == 64) == (b == 64)
        &&& (flags & 128 == 128) == (b == 128)
        &&& flags & !0xffu32 == 0
    }) by (bit_vector)
        requires
            d == 1u32 || d == 2u32,
            a == 0u32 || a == 4u32,
            b == 32u32 || b == 64u32 || b == 128u32,
            o == 0u32 || o == 8u32 || o == 16u32,
    ;
}

/// The flags of a second-generation request say what was asked, and nothing
/// else: each flag is set exactly where its setting was chosen. An open-drain
/// drive sets the open-drain flag and not the open-source flag, an
/// open-source drive the other way round, and a push-pull drive neither.
pub proof fn lemma_v2_request_flags(settings: LineSettings)
    ensures
        v2::has_flag(v2_request_flags(settings), v2::GPIO_LINE_FLAG_INPUT) <==> settings.direction
            == Direction::Input,
        v2::has_flag(v2_request_flags(settings), v2::GPIO_LINE_FLAG_OUTPUT) <==> settings.direction
            == Direction::Output,
        v2::has_flag(v2_request_flags(settings), v2::GPIO_LINE_FLAG_ACTIVE_LOW) <==> settings.active
            == Active::Low,
        v2::has_flag(v2_request_flags(settings), v2::GPIO_LINE_FLAG_EDGE_RISING) <==> settings.edge
            == EdgeDetect::Rising || settings.edge == EdgeDetect::Both,
        v2::has_flag(v2_request_flags(settings), v2::GPIO_LINE_FLAG_EDGE_FALLING) <==> settings.edge
            == EdgeDetect::Falling || settings.edge == EdgeDetect::Both,
        v2::has_flag(v2_request_flags(settings), v2::GPIO_LINE_FLAG_OPEN_DRAIN) <==> settings.drive
            == Drive::OpenDrain,
        v2::has_flag(v2_request_flags(settings), v2::GPIO_LINE_FLAG_OPEN_SOURCE) <==> settings.drive
            == Drive::OpenSource,
        v2::has_flag(v2_request_flags(settings), v2::GPIO_LINE_FLAG_BIAS_PULL_UP) <==> settings.bias
            == Bias::PullUp,
        v2::has_flag(v2_request_flags(settings), v2::GPIO_LINE_FLAG_BIAS_PULL_DOWN) <==> settings.bias
            == Bias::PullDown,
        v2::has_flag(v2_request_flags(settings), v2::GPIO_LINE_FLAG_BIAS_DISABLED) <==> settings.bias
            == Bias::Disable,
        !v2::has_flag(v2_request_flags(settings), v2::GPIO_LINE_FLAG_USED),
        v2_request_flags(settings) & !0x7ffu64 == 0,
{
    let d = v2_direction_flag(settings.direction);
    let a = v2_active_flag(settings.active);
    let e = v2_edge_flag(settings.edge);
    let b = v2_bias_flag(settings.bias);
    let o = v2_drive_flag(settings.drive);
    assert({
        let flags = d | a | e | b | o;
        &&& (flags & 1 != 1)
        &&& (flags & 2 == 2) == (a == 2)
        &&& (flags & 4 == 4) == (d == 4)
        &&& (flags & 8 == 8) == (d == 8)
        &&& (flags & 16 == 16) == (e == 16 || e == 48)
        &&& (flags & 32 == 32) == (e == 32 || e == 48)
        &&& (flags & 64 == 64) == (o == 64)
        &&& (flags & 128 == 128) == (o == 128)
        &&& (flags & 256 == 256) == (b == 256)
        &&& (flags & 512 == 512) == (b == 512)
        &&& (flags & 1024 == 1024) == (b == 1024)
        &&& flags & !0x7ffu64 == 0
    }) by (bit_vector)
        requires
            d == 4u64 || d == 8u64,
            a == 0u64 || a == 2u64,
            e == 0u64 || e == 16u64 || e == 32u64 || e == 48u64,
            b == 256u64 || b == 512u64 || b == 1024u64,
            o == 0u64 || o == 64u64 || o == 128u64,
    ;
}

/// A request fits exactly where it asks for no more than 64 lines under a
/// label of no more than 31 bytes.
pub proof fn lemma_request_fits(offsets: Seq<LineId>, label: Seq<u8>)
    ensures
        request_fits(offsets, label) <==> offsets.len() <= 64 && label.len() <= 31,
{
}

/// Whether a request for the lines at `offsets` under the consumer label
/// `label` fits the kernel's record: no more lines than the record holds, and
/// a label that leaves room for the NUL byte at its end.
pub open spec fn request_fits(offsets: Seq<LineId>, label: Seq<u8>) -> bool {
    fits(offsets.len(), LINES_MAX as nat) && fits_str(label.len(), GPIO_MAX_NAME_SIZE as nat)
}

/// The field of `size` items that holds `items` at its beginning and zero
/// behind them.
pub open spec fn zero_padded<T>(items: Seq<T>, size: nat, zero: T) -> Seq<T>
    recommends
        items.len() <= size,
{
    Seq::new(
        size,
        |i: int|
            if i < items.len() {
                items[i]
            } else {
                zero
            },
    )
}

/// A field that holds a text and only zeros behind it reads, without its
/// padding, as the text itself, where the text does not end in a NUL byte.
pub proof fn lemma_label_reads_back(label: Seq<u8>, size: nat)
    requires
        label.len() <= size,
        label.len() == 0 || label.last() != 0,
    ensures
        trim_nul(zero_padded(label, size, 0u8)) == label,
    decreases size - label.len(),
{
    if label.len() < size {
        let field = zero_padded(label, size, 0u8);
        assert(field.drop_last() =~= zero_padded(label, (size - 1) as nat, 0u8));
        lemma_label_reads_back(label, (size - 1) as nat);
    }
}

/// Whether `request` is the first-generation request for the lines at
/// `offsets`, with `settings`, under the consumer label `label`.
pub open spec fn v1_is_request(
    request: v1::GpioHandleRequest,
    settings: LineSettings,
    offsets: Seq<LineId>,
    label: Seq<u8>,
) -> bool {
    &&& request.line_offsets@ =~= zero_padded(offsets, v1::GPIOHANDLES_MAX as nat, 0u32)
    &&& request.flags == v1_request_flags(settings)
    &&& request.default_values@ =~= filled(v1::GPIOHANDLES_MAX as nat, 0u8)
    &&& request.consumer_label@ =~= zero_padded(label, GPIO_MAX_NAME_SIZE as nat, 0u8)
    &&& request.lines == offsets.len()
    &&& request.fd == 0
}

/// Whether `request` is the second-generation request for the lines at
/// `offsets`, with `settings`, under the consumer label `label`.
pub open spec fn v2_is_request(
    request: v2::GpioLineRequest,
    settings: LineSettings,
    offsets: Seq<LineId>,
    label: Seq<u8>,
) -> bool {
    &&& request.offsets@ =~= zero_padded(offsets, v2::GPIO_LINES_MAX as nat, 0u32)
    &&& request.consumer@ =~= zero_padded(label, GPIO_MAX_NAME_SIZE as nat, 0u8)
    &&& request.config.flags == v2_request_flags(settings)
    &&& request.config.num_attrs == 0
    &&& request.config.padding@ =~= filled(5, 0u32)
    &&& request.config.attrs@.len() == v2::GPIO_LINE_NUM_ATTRS_MAX
    &&& forall|i: int|
        0 <= i < v2::GPIO_LINE_NUM_ATTRS_MAX ==> (#[trigger] request.config.attrs@[i]).is_zeroed()
    &&& request.num_lines == offsets.len()
    &&& request.event_buffer_size == 0
    &&& request.padding@ =~= filled(5, 0u32)
    &&& request.fd == 0
}

/// Whether `request` is the request of generation `abi` for the lines at
/// `offsets`, with `settings`, under the consumer label `label`.
pub open spec fn is_request(
    request: LineRequestData,
    abi: Abi,
    settings: LineSettings,
    offsets: Seq<LineId>,
    label: Seq<u8>,
) -> bool {
    match request {
        LineRequestData::V1(request) => abi == Abi::V1 && v1_is_request(
            request,
            settings,
            offsets,
            label,
        ),
        LineRequestData::V2(request) => abi == Abi::V2 && v2_is_request(
            request,
            settings,
            offsets,
            label,
        ),
    }
}

/// Computes the flags of a first-generation request.
fn v1_flags(settings: LineSettings) -> (res: u32)
    ensures
        res == v1_request_flags(settings),
{
    let direction = match settings.direction {
        Direction::Input => v1::GPIOHANDLE_REQUEST_INPUT,
        Direction::Output => v1::GPIOHANDLE_REQUEST_OUTPUT,
    };

    let active = match settings.active {
        Active::Low => v1::GPIOHANDLE_REQUEST_ACTIVE_LOW,
        Active::High => 0,
    };

    let bias = match settings.bias {
        Bias::PullUp => v1::GPIOHANDLE_REQUEST_BIAS_PULL_UP,
        Bias::PullDown => v1::GPIOHANDLE_REQUEST_BIAS_PULL_DOWN,
        Bias::Disable => v1::GPIOHANDLE_REQUEST_BIAS_DISABLE,
    };

    let drive = match settings.drive {
        Drive::OpenDrain => v1::GPIOHANDLE_REQUEST_OPEN_DRAIN,
        Drive::OpenSource => v1::GPIOHANDLE_REQUEST_OPEN_SOURCE,
        Drive::PushPull => 0,
    };

    direction | active | bias | drive
}

/// Computes the flags of a second-generation request.
fn v2_flags(settings: LineSettings) -> (res: u64)
    ensures
        res == v2_request_flags(settings),
{
    let direction = match settings.direction {
        Direction::Input => v2::GPIO_LINE_FLAG_INPUT,
        Direction::Output => v2::GPIO_LINE_FLAG_OUTPUT,
    };

    let active = match settings.active {
        Active::Low => v2::GPIO_LINE_FLAG_ACTIVE_LOW,
        Active::High => 0,
    };

    let edge = match settings.edge {
        EdgeDetect::Rising => v2::GPIO_LINE_FLAG_EDGE_RISING,
        EdgeDetect::Falling => v2::GPIO_LINE_FLAG_EDGE_FALLING,
        EdgeDetect::Both => v2::GPIO_LINE_FLAG_EDGE_BOTH,
        EdgeDetect::Disable => 0,
    };

    let bias = match settings.bias {
        Bias::PullUp => v2::GPIO_LINE_FLAG_BIAS_PULL_UP,
        Bias::PullDown => v2::GPIO_LINE_FLAG_BIAS_PULL_DOWN,
        Bias::Disable => v2::GPIO_LINE_FLAG_BIAS_DISABLED,
    };

    let drive = match settings.drive {
        Drive::OpenDrain => v2::GPIO_LINE_FLAG_OPEN_DRAIN,
        Drive::OpenSource => v2::GPIO_LINE_FLAG_OPEN_SOURCE,
        Drive::PushPull => 0,
    };

    direction | active | edge | bias | drive
}

/// Copies the offsets of the requested lines to the beginning of the
/// record's field.
fn set_offsets(dst: &mut [u32; 64], offsets: &[LineId])
    requires
        offsets@.len() <= 64,
        old(dst)@ =~= filled(64, 0u32),
    ensures
        final(dst)@ =~= zero_padded(offsets@, 64, 0u32),
{
    let count = offsets.len();
    let mut i: usize = 0;
    while i < count
        invariant
            count == offsets@.len(),
            count <= 64,
            i <= count,
            dst@.len() == 64,
            forall|j: int| 0 <= j < i ==> dst@[j] == offsets@[j],
            forall|j: int| i <= j < 64 ==> dst@[j] == 0,
        decreases count - i,
    {
        dst[i] = offsets[i];
        i += 1;
    }
}

/// Builds the request of generation `abi` for the lines at `offsets`, with
/// `settings`, under the consumer label `label`.
///
/// More lines than a request can hold, or a label that does not fit its
/// field, are refused: no request is built.
pub fn line_request(abi: Abi, settings: LineSettings, offsets: &[LineId], label: &str) -> (res:
    Result<LineRequestData, Error>)
    ensures
        request_fits(offsets@, label.spec_bytes()) ==> res is Ok && is_request(
            res->Ok_0,
            abi,
            settings,
            offsets@,
            label.spec_bytes(),
        ),
        !request_fits(offsets@, label.spec_bytes()) ==> res is Err && res->Err_0
            == Error::InvalidInput,
{
    match abi {
        Abi::V1 => {
            let mut request = v1::GpioHandleRequest::default();

            check_len(offsets, &request.line_offsets)?;

            request.lines = offsets.len() as u32;

            set_offsets(&mut request.line_offsets, offsets);

            request.flags = v1_flags(settings);

            safe_set_str(&mut request.consumer_label, label)?;

            Ok(LineRequestData::V1(request))
        },
        Abi::V2 => {
            let mut request = v2::GpioLineRequest::default();

            check_len(offsets, &request.offsets)?;

            request.num_lines = offsets.len() as u32;

            set_offsets(&mut request.offsets, offsets);

            request.config.flags = v2_flags(settings);

            safe_set_str(&mut request.consumer, label)?;

            Ok(LineRequestData::V2(request))
        },
    }
}

} // verus!
