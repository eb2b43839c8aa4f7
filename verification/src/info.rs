//! What the kernel reports about one line.

use vstd::prelude::*;
use vstd::string::*;
use vstd::utf8::*;
use crate::error::Error;
use crate::raw::{v1, v2, LineInfoData};
use crate::request::{lemma_v2_request_flags, v2_request_flags, LineSettings};
use crate::types::{Active, Bias, Direction, Drive, EdgeDetect};
use crate::utils::{is_set, safe_get_str, trim_nul};

verus! {

/// The bias that the two pull flags stand for: a pull only where exactly one
/// of them is set.
pub open spec fn bias_of(pull_up: bool, pull_down: bool) -> Bias {
    if pull_up && !pull_down {
        Bias::PullUp
    } else if !pull_up && pull_down {
        Bias::PullDown
    } else {
        Bias::Disable
    }
}

/// The drive that the two open flags stand for: an open drive only where
/// exactly one of them is set.
pub open spec fn drive_of(open_drain: bool, open_source: bool) -> Drive {
    if open_drain && !open_source {
        Drive::OpenDrain
    } else if !open_drain && open_source {
        Drive::OpenSource
    } else {
        Drive::PushPull
    }
}

/// The edge detection that the two edge flags stand for.
pub open spec fn edge_of(rising: bool, falling: bool) -> EdgeDetect {
    if rising && falling {
        EdgeDetect::Both
    } else if rising {
        EdgeDetect::Rising
    } else if falling {
        EdgeDetect::Falling
    } else {
        EdgeDetect::Disable
    }
}

/// The text that a fixed-size field holds: its bytes up to the NUL bytes that
/// pad it, read as UTF-8.
pub open spec fn field_text(field: Seq<u8>) -> Seq<char>
    recommends
        valid_utf8(field),
{
    decode_utf8(trim_nul(field))
}

/// The information about a line, as a plain value.
pub struct LineInfoView {
    /// Direction of the line
    pub direction: Direction,
    /// Active state of the line
    pub active: Active,
    /// Edge detection of the line
    pub edge: EdgeDetect,
    /// Whether the kernel or a consumer uses the line
    pub used: bool,
    /// Input bias of the line
    pub bias: Bias,
    /// Output drive of the line
    pub drive: Drive,
    /// Name of the line
    pub name: Seq<char>,
    /// Label of what uses the line
    pub consumer: Seq<char>,
}

impl LineInfoView {
    /// The information in one line of text: the direction, whether the line
    /// is used and by whom, the active state, and then the drive and the edge
    /// detection where they are not the usual ones.
    pub open spec fn text(self) -> Seq<char> {
        "\t "@ + self.direction.text() + (if self.used {
            "\t Used"@
        } else {
            "\t Unused"@
        }) + (if self.consumer.len() == 0 {
            "\t Unnamed"@
        } else {
            "\t "@ + self.consumer
        }) + "\t Active "@ + self.active.text() + (if self.drive != Drive::PushPull {
            "\t "@ + self.drive.text()
        } else {
            Seq::<char>::empty()
        }) + (if self.edge != EdgeDetect::Disable {
            "\t Edge "@ + self.edge.text()
        } else {
            Seq::<char>::empty()
        })
    }
}

/// Whether both text fields of a first-generation record can be read.
pub open spec fn v1_readable(raw: v1::GpioLineInfo) -> bool {
    valid_utf8(raw.name@) && valid_utf8(raw.consumer@)
}

/// What a first-generation record says about its line. This generation
/// reports no edge detection.
pub open spec fn v1_line_info(raw: v1::GpioLineInfo) -> LineInfoView
    recommends
        v1_readable(raw),
{
    let flags = raw.flags;
    LineInfoView {
        direction: if v1::has_flag(flags, v1::GPIOLINE_FLAG_IS_OUT) {
            Direction::Output
        } else {
            Direction::Input
        },
        active: if v1::has_flag(flags, v1::GPIOLINE_FLAG_ACTIVE_LOW) {
            Active::Low
        } else {
            Active::High
        },
        edge: EdgeDetect::Disable,
        used: v1::has_flag(flags, v1::GPIOLINE_FLAG_KERNEL),
        bias: bias_of(
            v1::has_flag(flags, v1::GPIOLINE_FLAG_BIAS_PULL_UP),
            v1::has_flag(flags, v1::GPIOLINE_FLAG_BIAS_PULL_DOWN),
        ),
        drive: drive_of(
            v1::has_flag(flags, v1::GPIOLINE_FLAG_OPEN_DRAIN),
            v1::has_flag(flags, v1::GPIOLINE_FLAG_OPEN_SOURCE),
        ),
        name: field_text(raw.name@),
        consumer: field_text(raw.consumer@),
    }
}

/// Whether both text fields of a second-generation record can be read.
pub open spec fn v2_readable(raw: v2::GpioLineInfo) -> bool {
    valid_utf8(raw.name@) && valid_utf8(raw.consumer@)
}

/// What a second-generation record says about its line.
pub open spec fn v2_line_info(raw: v2::GpioLineInfo) -> LineInfoView
    recommends
        v2_readable(raw),
{
    let flags = raw.flags;
    LineInfoView {
        direction: if v2::has_flag(flags, v2::GPIO_LINE_FLAG_OUTPUT) {
            Direction::Output
        } else {
            Direction::Input
        },
        active: if v2::has_flag(flags, v2::GPIO_LINE_FLAG_ACTIVE_LOW) {
            Active::Low
        } else {
            Active::High
        },
        edge: edge_of(
            v2::has_flag(flags, v2::GPIO_LINE_FLAG_EDGE_RISING),
            v2::has_flag(flags, v2::GPIO_LINE_FLAG_EDGE_FALLING),
        ),
        used: v2::has_flag(flags, v2::GPIO_LINE_FLAG_USED),
        bias: bias_of(
            v2::has_flag(flags, v2::GPIO_LINE_FLAG_BIAS_PULL_UP),
            v2::has_flag(flags, v2::GPIO_LINE_FLAG_BIAS_PULL_DOWN),
        ),
        drive: drive_of(
            v2::has_flag(flags, v2::GPIO_LINE_FLAG_OPEN_DRAIN),
            v2::has_flag(flags, v2::GPIO_LINE_FLAG_OPEN_SOURCE),
        ),
        name: field_text(raw.name@),
        consumer: field_text(raw.consumer@),
    }
}

/// In the second generation a request and a line speak of their settings in
/// the same flags: a line whose flags are those of a request reads as the
/// settings that were asked for, and as not in use.
pub proof fn lemma_v2_settings_read_back(settings: LineSettings, raw: v2::GpioLineInfo)
    requires
        raw.flags == v2_request_flags(settings),
    ensures
        v2_line_info(raw).direction == settings.direction,
        v2_line_info(raw).active == settings.active,
        v2_line_info(raw).edge == settings.edge,
        v2_line_info(raw).bias == settings.bias,
        v2_line_info(raw).drive == settings.drive,
        !v2_line_info(raw).used,
{
    lemma_v2_request_flags(settings);
}

/// Whether both text fields of a record can be read.
pub open spec fn readable(data: LineInfoData) -> bool {
    match data {
        LineInfoData::V1(raw) => v1_readable(raw),
        LineInfoData::V2(raw) => v2_readable(raw),
    }
}

/// What a record says about its line, by the tables of its generation.
pub open spec fn line_info_of(data: LineInfoData) -> LineInfoView
    recommends
        readable(data),
{
    match data {
        LineInfoData::V1(raw) => v1_line_info(raw),
        LineInfoData::V2(raw) => v2_line_info(raw),
    }
}

/// Represents the information of a specific GPIO line. Can only be obtained through the Chip interface.
pub struct LineInfo {
    direction: Direction,
    active: Active,
    edge: EdgeDetect,
    used: bool,
    bias: Bias,
    drive: Drive,
    name: String,
    consumer: String,
}

impl View for LineInfo {
    type V = LineInfoView;

    closed spec fn view(&self) -> LineInfoView {
        LineInfoView {
            direction: self.direction,
            active: self.active,
            edge: self.edge,
            used: self.used,
            bias: self.bias,
            drive: self.drive,
            name: self.name@,
            consumer: self.consumer@,
        }
    }
}

impl LineInfo {
    /// Reads a first-generation record.
    fn from_v1(raw: &v1::GpioLineInfo) -> (res: Result<LineInfo, Error>)
        ensures
            v1_readable(*raw) ==> res is Ok && res->Ok_0@ == v1_line_info(*raw),
            !v1_readable(*raw) ==> res is Err && res->Err_0 == Error::InvalidData,
    {
        let direction = if is_set(raw.flags, v1::GPIOLINE_FLAG_IS_OUT) {
            Direction::Output
        } else {
            Direction::Input
        };

        let active = if is_set(raw.flags, v1::GPIOLINE_FLAG_ACTIVE_LOW) {
            Active::Low
        } else {
            Active::High
        };

        let edge = EdgeDetect::Disable;

        let used = is_set(raw.flags, v1::GPIOLINE_FLAG_KERNEL);

        let bias = match (
            is_set(raw.flags, v1::GPIOLINE_FLAG_BIAS_PULL_UP),
            is_set(raw.flags, v1::GPIOLINE_FLAG_BIAS_PULL_DOWN),
        ) {
            (true, false) => Bias::PullUp,
            (false, true) => Bias::PullDown,
            _ => Bias::Disable,
        };

        let drive = match (
            is_set(raw.flags, v1::GPIOLINE_FLAG_OPEN_DRAIN),
            is_set(raw.flags, v1::GPIOLINE_FLAG_OPEN_SOURCE),
        ) {
            (true, false) => Drive::OpenDrain,
            (false, true) => Drive::OpenSource,
            _ => Drive::PushPull,
        };
        let name = safe_get_str(&raw.name)?.to_owned();
        let consumer = safe_get_str(&raw.consumer)?.to_owned();

        Ok(LineInfo { direction, active, edge, used, bias, drive, name, consumer })
    }

    /// Reads a second-generation record.
    fn from_v2(raw: &v2::GpioLineInfo) -> (res: Result<LineInfo, Error>)
        ensures
            v2_readable(*raw) ==> res is Ok && res->Ok_0@ == v2_line_info(*raw),
            !v2_readable(*raw) ==> res is Err && res->Err_0 == Error::InvalidData,
    {
        let direction = if is_set(raw.flags, v2::GPIO_LINE_FLAG_OUTPUT) {
            Direction::Output
        } else {
            Direction::Input
        };

        let active = if is_set(raw.flags, v2::GPIO_LINE_FLAG_ACTIVE_LOW) {
            Active::Low
        } else {
            Active::High
        };

        let edge = match (
            is_set(raw.flags, v2::GPIO_LINE_FLAG_EDGE_RISING),
            is_set(raw.flags, v2::GPIO_LINE_FLAG_EDGE_FALLING),
        ) {
            (true, false) => EdgeDetect::Rising,
            (false, true) => EdgeDetect::Falling,
            (true, true) => EdgeDetect::Both,
            _ => EdgeDetect::Disable,
        };

        let used = is_set(raw.flags, v2::GPIO_LINE_FLAG_USED);

        let bias = match (
            is_set(raw.flags, v2::GPIO_LINE_FLAG_BIAS_PULL_UP),
            is_set(raw.flags, v2::GPIO_LINE_FLAG_BIAS_PULL_DOWN),
        ) {
            (true, false) => Bias::PullUp,
            (false, true) => Bias::PullDown,
            _ => Bias::Disable,
        };

        let drive = match (
            is_set(raw.flags, v2::GPIO_LINE_FLAG_OPEN_DRAIN),
            is_set(raw.flags, v2::GPIO_LINE_FLAG_OPEN_SOURCE),
        ) {
            (true, false) => Drive::OpenDrain,
            (false, true) => Drive::OpenSource,
            _ => Drive::PushPull,
        };
        let name = safe_get_str(&raw.name)?.to_owned();
        let consumer = safe_get_str(&raw.consumer)?.to_owned();

        Ok(LineInfo { direction, active, edge, used, bias, drive, name, consumer })
    }

    /// Reads the kernel's record about a line, by the tables of the
    /// generation that the record belongs to.
    ///
    /// A record whose name or consumer is not valid text is refused.
    pub fn decode(data: &LineInfoData) -> (res: Result<LineInfo, Error>)
        ensures
            readable(*data) ==> res is Ok && res->Ok_0@ == line_info_of(*data),
            !readable(*data) ==> res is Err && res->Err_0 == Error::InvalidData,
    {
        match data {
            LineInfoData::V1(raw) => LineInfo::from_v1(raw),
            LineInfoData::V2(raw) => LineInfo::from_v2(raw),
        }
    }

    /// Get direction of line
    pub fn direction(&self) -> (res: Direction)
        ensures
            res == self@.direction,
    {
        self.direction
    }

    /// Get active state of line
    pub fn active(&self) -> (res: Active)
        ensures
            res == self@.active,
    {
        self.active
    }

    /// Get edge detect of line
    pub fn edge(&self) -> (res: EdgeDetect)
        ensures
            res == self@.edge,
    {
        self.edge
    }

    /// Get input bias of line
    pub fn bias(&self) -> (res: Bias)
        ensures
            res == self@.bias,
    {
        self.bias
    }

    /// In line configured as pull up input
    pub fn is_pull_up(&self) -> (res: bool)
        ensures
            res == (self@.bias == Bias::PullUp),
    {
        matches!(self.bias, Bias::PullUp)
    }

    /// In line configured as pull down input
    pub fn is_pull_down(&self) -> (res: bool)
        ensures
            res == (self@.bias == Bias::PullDown),
    {
        matches!(self.bias, Bias::PullDown)
    }

    /// Get output mode of line
    pub fn drive(&self) -> (res: Drive)
        ensures
            res == self@.drive,
    {
        self.drive
    }

    /// Is line used
    pub fn is_used(&self) -> (res: bool)
        ensures
            res == self@.used,
    {
        self.used
    }

    /// Is line configured as open drain output
    pub fn is_open_drain(&self) -> (res: bool)
        ensures
            res == (self@.drive == Drive::OpenDrain),
    {
        matches!(self.drive, Drive::OpenDrain)
    }

    /// Is line configured as open source output
    pub fn is_open_source(&self) -> (res: bool)
        ensures
            res == (self@.drive == Drive::OpenSource),
    {
        matches!(self.drive, Drive::OpenSource)
    }

    /// Get line name
    pub fn name(&self) -> (res: &str)
        ensures
            res@ == self@.name,
    {
        self.name.as_str()
    }

    /// Get line consumer
    pub fn consumer(&self) -> (res: &str)
        ensures
            res@ == self@.consumer,
    {
        self.consumer.as_str()
    }

    /// The information in one line of text.
    pub fn to_string(&self) -> (res: String)
        ensures
            res@ == self@.text(),
    {
        let mut f = String::from_str("\t ");
        f.append(self.direction.as_ref());
        if self.used {
            f.append("\t Used");
        } else {
            f.append("\t Unused");
        }
        if self.consumer.as_str().is_empty() {
            f.append("\t Unnamed");
        } else {
            f.append("\t ");
            f.append(self.consumer.as_str());
        }
        f.append("\t Active ");
        f.append(self.active.as_ref());
        if !matches!(self.drive, Drive::PushPull) {
            f.append("\t ");
            f.append(self.drive.as_ref());
        }
        if !matches!(self.edge, EdgeDetect::Disable) {
            f.append("\t Edge ");
            f.append(self.edge.as_ref());
        }
        f
    }
}

} // verus!
