//! A GPIO chip: how its device node is checked, what it says of itself and
//! of its lines, and how groups of its lines are requested.

use vstd::prelude::*;
use vstd::slice::slice_subrange;
use vstd::string::*;
use vstd::utf8::*;
use crate::error::Error;
use crate::info::{field_text, line_info_of, readable, LineInfo};
use crate::lines::{Inputs, LinesView, Outputs};
use crate::raw::{v1, v2, GpioChipInfo, LineInfoData, LineRequestData};
use crate::request::{is_request, line_request, request_fits, LineSettings};
use crate::text::{decimal, push_decimal};
use crate::types::{Abi, Active, Bias, Direction, Drive, EdgeDetect, LineId};
use crate::utils::safe_get_str;

verus! {

/// The byte that ends a line of text.
pub const LINE_FEED: u8 = 10;

/// Number of bytes that are read of a device-number record.
pub const SYSFS_RDEV_SIZE: usize = 16;

/// The path of the device-number record that the system keeps for the GPIO
/// device named `basename`.
pub open spec fn sysfs_path(basename: Seq<char>) -> Seq<char> {
    "/sys/bus/gpio/devices/"@ + basename + "/dev"@
}

/// What the first check of a device node gives: a node that is no character
/// device is refused; for one that is, the path of the device-number record
/// of the device named `basename`.
pub open spec fn node_check(is_char_device: bool, basename: Seq<char>) -> Result<Seq<char>, Error> {
    if is_char_device {
        Ok(sysfs_path(basename))
    } else {
        Err(Error::NotCharDevice)
    }
}

/// Where the first line of `record` ends, looking from `start` on: at the
/// first line feed, or at the last byte where there is none before it.
pub open spec fn line_end(record: Seq<u8>, start: int) -> int
    recommends
        0 <= start < record.len(),
    decreases record.len() - start,
{
    if start >= record.len() - 1 || record[start] == LINE_FEED {
        start
    } else {
        line_end(record, start + 1)
    }
}

/// The first line of `record`, without the byte that ends it.
pub open spec fn first_line(record: Seq<u8>) -> Seq<u8>
    recommends
        record.len() > 0,
{
    record.subrange(0, line_end(record, 0))
}

/// The major number of a device number.
pub open spec fn rdev_major(rdev: u64) -> u64 {
    rdev >> 8
}

/// The minor number of a device number.
pub open spec fn rdev_minor(rdev: u64) -> u64 {
    rdev & 0xFF
}

/// A device number as the system writes it: the major and the minor number
/// in decimal digits, with a colon between them.
pub open spec fn rdev_text(rdev: u64) -> Seq<char> {
    decimal(rdev_major(rdev) as nat) + seq![':'] + decimal(rdev_minor(rdev) as nat)
}

/// What the device-number record says of a device node whose file has the
/// device number `rdev`: the node is a GPIO character device where the first
/// line of the record is that number, and is refused where there is no
/// record, where the line is not text, or where it is another number.
pub open spec fn cdev_check(record: Option<Seq<u8>>, rdev: u64) -> Result<bool, Error> {
    match record {
        None => Err(Error::NoSysfsRecord),
        Some(record) => if !valid_utf8(first_line(record)) {
            Err(Error::InvalidData)
        } else if field_text(first_line(record)) == rdev_text(rdev) {
            Ok(true)
        } else {
            Err(Error::DeviceMismatch)
        },
    }
}

/// A device node that is no character device is refused as unfit, whatever
/// its name.
pub proof fn lemma_not_char_device(basename: Seq<char>)
    ensures
        node_check(false, basename) == Err::<Seq<char>, Error>(Error::NotCharDevice),
        Error::NotCharDevice.is_validation(),
{
}

/// A device node without a device-number record is refused as unfit.
pub proof fn lemma_no_record(rdev: u64)
    ensures
        cdev_check(None, rdev) == Err::<bool, Error>(Error::NoSysfsRecord),
        Error::NoSysfsRecord.is_validation(),
{
}

/// A device node whose device-number record reads as another number than
/// that of the opened file is refused as unfit.
pub proof fn lemma_device_mismatch(record: Seq<u8>, rdev: u64)
    requires
        valid_utf8(first_line(record)),
        field_text(first_line(record)) != rdev_text(rdev),
    ensures
        cdev_check(Some(record), rdev) == Err::<bool, Error>(Error::DeviceMismatch),
        Error::DeviceMismatch.is_validation(),
{
}

/// A device node is accepted only where its device-number record exists and
/// reads as the number of the opened file.
pub proof fn lemma_device_match(record: Option<Seq<u8>>, rdev: u64)
    ensures
        cdev_check(record, rdev) is Ok <==> record is Some && valid_utf8(first_line(record->0))
            && field_text(first_line(record->0)) == rdev_text(rdev),
        cdev_check(record, rdev) is Ok ==> cdev_check(record, rdev) == Ok::<bool, Error>(true),
{
}

/// A chip, as a plain value.
pub struct ChipView {
    /// Generation of the protocol that is spoken with the chip
    pub abi: Abi,
    /// Name of the chip
    pub name: Seq<char>,
    /// Label of the chip
    pub label: Seq<char>,
    /// Number of lines of the chip
    pub num_lines: LineId,
}

impl ChipView {
    /// The chip in one line of text: its name, its label in square brackets,
    /// and the number of its lines in round brackets.
    pub open spec fn text(self) -> Seq<char> {
        self.name + " ["@ + self.label + "] ("@ + decimal(self.num_lines as nat) + " lines)"@
    }
}

/// Whether the name and the label of the chip information can be read.
pub open spec fn chip_readable(info: GpioChipInfo) -> bool {
    valid_utf8(info.name@) && valid_utf8(info.label@)
}

/// The chip that the chip information describes.
pub open spec fn chip_of(abi: Abi, info: GpioChipInfo) -> ChipView
    recommends
        chip_readable(info),
{
    ChipView {
        abi,
        name: field_text(info.name@),
        label: field_text(info.label@),
        num_lines: info.lines,
    }
}

/// The record to hand to the kernel when asking about the line at `line`.
pub open spec fn is_line_info_query(data: LineInfoData, abi: Abi, line: LineId) -> bool {
    match data {
        LineInfoData::V1(data) => abi == Abi::V1 && data.line_offset == line && (v1::GpioLineInfo {
            line_offset: 0,
            ..data
        }).is_zeroed(),
        LineInfoData::V2(data) => abi == Abi::V2 && data.offset == line && (v2::GpioLineInfo {
            offset: 0,
            ..data
        }).is_zeroed(),
    }
}

/// Represents a Linux chardev GPIO chip interface.
/// It can be used to get information about the chip and lines and
/// to request GPIO lines that can be used as output or input.
pub struct Chip {
    abi: Abi,
    name: String,
    label: String,
    num_lines: LineId,
}

impl View for Chip {
    type V = ChipView;

    closed spec fn view(&self) -> ChipView {
        ChipView {
            abi: self.abi,
            name: self.name@,
            label: self.label@,
            num_lines: self.num_lines,
        }
    }
}

impl Chip {
    /// The first check of a device node, and where to look next: a node that
    /// is no character device is refused; for one that is, the path of its
    /// device-number record is handed out.
    pub fn sysfs_dev_path(is_char_device: bool, basename: &str) -> (res: Result<String, Error>)
        ensures
            match res {
                Ok(path) => node_check(is_char_device, basename@) == Ok::<Seq<char>, Error>(path@),
                Err(e) => node_check(is_char_device, basename@) == Err::<Seq<char>, Error>(e),
            },
    {
        if !is_char_device {
            return Err(Error::NotCharDevice);
        }
        let mut sysfs = String::from_str("/sys/bus/gpio/devices/");
        sysfs.append(basename);
        sysfs.append("/dev");
        Ok(sysfs)
    }

    /// The second check of a device node: compares the beginning of its
    /// device-number record, as far as it was read, with the device number
    /// `rdev` of the file that was opened. `None` stands for a record that
    /// does not exist.
    pub fn is_gpiochip_cdev(record: Option<&[u8; SYSFS_RDEV_SIZE]>, rdev: u64) -> (res: Result<
        bool,
        Error,
    >)
        ensures
            res == cdev_check(
                match record {
                    Some(record) => Some(record@),
                    None => None,
                },
                rdev,
            ),
    {
        let sysfs_rdev = match record {
            Some(record) => record,
            None => {
                return Err(Error::NoSysfsRecord);
            },
        };

        let mut lf_pos: usize = 0;
        while lf_pos < SYSFS_RDEV_SIZE - 1 && sysfs_rdev[lf_pos] != LINE_FEED
            invariant
                lf_pos < SYSFS_RDEV_SIZE,
                sysfs_rdev@.len() == SYSFS_RDEV_SIZE,
                line_end(sysfs_rdev@, 0) == line_end(sysfs_rdev@, lf_pos as int),
            decreases SYSFS_RDEV_SIZE - lf_pos,
        {
            lf_pos += 1;
        }

        let mut file_rdev = String::new();
        push_decimal(&mut file_rdev, rdev >> 8);
        file_rdev.append(":");
        push_decimal(&mut file_rdev, rdev & 0xFF);
        proof {
            reveal_strlit(":");
            assert(file_rdev@ =~= rdev_text(rdev));
        }

        let line = slice_subrange(sysfs_rdev.as_slice(), 0, lf_pos);
        let text = match safe_get_str(line) {
            Ok(text) => text,
            Err(e) => {
                return Err(e);
            },
        };
        if text.to_owned() == file_rdev {
            Ok(true)
        } else {
            Err(Error::DeviceMismatch)
        }
    }

    /// Create a new GPIO chip interface from the chip information that the
    /// kernel handed out.
    ///
    /// The name and the label are read up to the NUL bytes that pad them;
    /// chip information whose name or label is not valid text is refused.
    pub fn new(abi: Abi, info: &GpioChipInfo) -> (res: Result<Chip, Error>)
        ensures
            chip_readable(*info) ==> res is Ok && res->Ok_0@ == chip_of(abi, *info),
            !chip_readable(*info) ==> res is Err && res->Err_0 == Error::InvalidData,
    {
        Ok(
            Chip {
                abi,
                name: safe_get_str(&info.name)?.to_owned(),
                label: safe_get_str(&info.label)?.to_owned(),
                num_lines: info.lines,
            },
        )
    }

    /// The record to hand to the kernel when asking about the line at `line`:
    /// empty but for the offset of the line.
    pub fn line_info_query(&self, line: LineId) -> (res: LineInfoData)
        ensures
            is_line_info_query(res, self@.abi, line),
    {
        match self.abi {
            Abi::V1 => {
                let mut gpio_line_info = v1::GpioLineInfo::default();

                gpio_line_info.line_offset = line;

                LineInfoData::V1(gpio_line_info)
            },
            Abi::V2 => {
                let mut gpio_line_info = v2::GpioLineInfo::default();

                gpio_line_info.offset = line;

                LineInfoData::V2(gpio_line_info)
            },
        }
    }

    /// Request the info of a specific GPIO line: reads the record that the
    /// kernel filled in.
    pub fn line_info(&self, data: &LineInfoData) -> (res: Result<LineInfo, Error>)
        ensures
            readable(*data) ==> res is Ok && res->Ok_0@ == line_info_of(*data),
            !readable(*data) ==> res is Err && res->Err_0 == Error::InvalidData,
    {
        LineInfo::decode(data)
    }

    /// Request the GPIO chip to configure the lines passed as argument as outputs. Calling this
    /// operation is a precondition to being able to set the state of the GPIO lines. All the lines
    /// passed in one request must share the output mode and the active state. The state of lines configured
    /// as outputs can also be read using the *get_values* method.
    ///
    /// Hands out the request for the kernel, and the group of lines that the
    /// request is for. More than 64 lines, or a label of more than 31 bytes,
    /// are refused.
    pub fn request_output(
        &self,
        lines: &[LineId],
        active: Active,
        edge: EdgeDetect,
        bias: Bias,
        drive: Drive,
        label: &str,
    ) -> (res: Result<(LineRequestData, Outputs), Error>)
        ensures
            request_fits(lines@, label.spec_bytes()) ==> res is Ok && is_request(
                res->Ok_0.0,
                self@.abi,
                (LineSettings { direction: Direction::Output, active, edge, bias, drive }),
                lines@,
                label.spec_bytes(),
            ) && res->Ok_0.1@ == (LinesView {
                abi: self@.abi,
                chip_name: self@.name,
                lines: lines@,
            }),
            !request_fits(lines@, label.spec_bytes()) ==> res is Err && res->Err_0
                == Error::InvalidInput,
    {
        let settings = LineSettings { direction: Direction::Output, active, edge, bias, drive };

        let request = line_request(self.abi, settings, lines, label)?;

        Ok((request, Outputs::new(self.abi, self.name.as_str(), lines)))
    }

    /// Request the GPIO chip to configure the lines passed as argument as inputs. Calling this
    /// operation is a precondition to being able to read the state of the GPIO lines.
    ///
    /// Hands out the request for the kernel, and the group of lines that the
    /// request is for. More than 64 lines, or a label of more than 31 bytes,
    /// are refused.
    pub fn request_input(
        &self,
        lines: &[LineId],
        active: Active,
        edge: EdgeDetect,
        bias: Bias,
        label: &str,
    ) -> (res: Result<(LineRequestData, Inputs), Error>)
        ensures
            request_fits(lines@, label.spec_bytes()) ==> res is Ok && is_request(
                res->Ok_0.0,
                self@.abi,
                (LineSettings {
                    direction: Direction::Input,
                    active,
                    edge,
                    bias,
                    drive: Drive::PushPull,
                }),
                lines@,
                label.spec_bytes(),
            ) && res->Ok_0.1@ == (LinesView {
                abi: self@.abi,
                chip_name: self@.name,
                lines: lines@,
            }),
            !request_fits(lines@, label.spec_bytes()) ==> res is Err && res->Err_0
                == Error::InvalidInput,
    {
        let settings = LineSettings {
            direction: Direction::Input,
            active,
            edge,
            bias,
            drive: Drive::PushPull,
        };

        let request = line_request(self.abi, settings, lines, label)?;

        Ok((request, Inputs::new(self.abi, self.name.as_str(), lines)))
    }

    /// Get the generation of the protocol that is spoken with the chip.
    pub fn abi(&self) -> (res: Abi)
        ensures
            res == self@.abi,
    {
        self.abi
    }

    /// Get the GPIO chip name.
    pub fn name(&self) -> (res: &str)
        ensures
            res@ == self@.name,
    {
        self.name.as_str()
    }

    /// Get the GPIO chip label.
    pub fn label(&self) -> (res: &str)
        ensures
            res@ == self@.label,
    {
        self.label.as_str()
    }

    /// Get the total number of lines of the GPIO chip.
    pub fn num_lines(&self) -> (res: LineId)
        ensures
            res == self@.num_lines,
    {
        self.num_lines
    }

    /// The chip in one line of text.
    pub fn to_string(&self) -> (res: String)
        ensures
            res@ == self@.text(),
    {
        let mut res = self.name.clone();
        res.append(" [");
        res.append(self.label.as_str());
        res.append("] (");
        push_decimal(&mut res, self.num_lines as u64);
        res.append(" lines)");
        res
    }
}

} // verus!
