use gpiod::raw::{v1, v2, LineInfoData, LineRequestData};
use gpiod::request::{line_request, LineSettings};
use gpiod::{Abi, Active, Bias, Direction, Drive, EdgeDetect, Error, LineInfo};

fn name_field(text: &str) -> [u8; 32] {
    let mut field = [0u8; 32];
    field[..text.len()].copy_from_slice(text.as_bytes());
    field
}

fn v1_record(flags: u32, name: &str, consumer: &str) -> LineInfoData {
    LineInfoData::V1(v1::GpioLineInfo {
        line_offset: 5,
        flags,
        name: name_field(name),
        consumer: name_field(consumer),
    })
}

fn v2_record(flags: u64, name: &str, consumer: &str) -> LineInfoData {
    let mut raw = v2::GpioLineInfo::default();
    raw.offset = 5;
    raw.flags = flags;
    raw.name = name_field(name);
    raw.consumer = name_field(consumer);
    LineInfoData::V2(raw)
}

fn decoded(data: LineInfoData) -> LineInfo {
    match LineInfo::decode(&data) {
        Ok(info) => info,
        Err(e) => panic!("refused: {:?}", e),
    }
}

#[test]
fn v1_line_without_flags() {
    let info = decoded(v1_record(0, "GPIO17", ""));
    assert_eq!(info.direction(), Direction::Input);
    assert_eq!(info.active(), Active::High);
    assert_eq!(info.edge(), EdgeDetect::Disable);
    assert_eq!(info.bias(), Bias::Disable);
    assert_eq!(info.drive(), Drive::PushPull);
    assert!(!info.is_used());
    assert!(!info.is_pull_up());
    assert!(!info.is_pull_down());
    assert!(!info.is_open_drain());
    assert!(!info.is_open_source());
    assert_eq!(info.name(), "GPIO17");
    assert_eq!(info.consumer(), "");
}

#[test]
fn v1_line_flags_one_by_one() {
    assert!(decoded(v1_record(0x01, "", "")).is_used());
    assert_eq!(decoded(v1_record(0x02, "", "")).direction(), Direction::Output);
    assert_eq!(decoded(v1_record(0x04, "", "")).active(), Active::Low);
    assert_eq!(decoded(v1_record(0x08, "", "")).drive(), Drive::OpenDrain);
    assert_eq!(decoded(v1_record(0x10, "", "")).drive(), Drive::OpenSource);
    assert_eq!(decoded(v1_record(0x20, "", "")).bias(), Bias::PullUp);
    assert_eq!(decoded(v1_record(0x40, "", "")).bias(), Bias::PullDown);
}

#[test]
fn v1_line_with_both_flags_of_a_pair_falls_back() {
    let info = decoded(v1_record(0x08 | 0x10 | 0x20 | 0x40, "", ""));
    assert_eq!(info.drive(), Drive::PushPull);
    assert_eq!(info.bias(), Bias::Disable);
    assert!(!info.is_open_drain());
    assert!(!info.is_open_source());
    assert!(!info.is_pull_up());
    assert!(!info.is_pull_down());
}

#[test]
fn v1_line_reports_no_edge_detection() {
    for flags in [0u32, 0x10, 0x20, 0x30, u32::MAX] {
        assert_eq!(decoded(v1_record(flags, "", "")).edge(), EdgeDetect::Disable);
    }
}

#[test]
fn v1_line_in_use_as_output() {
    let info = decoded(v1_record(0x01 | 0x02 | 0x04 | 0x08, "LED", "gpioset"));
    assert!(info.is_used());
    assert_eq!(info.direction(), Direction::Output);
    assert_eq!(info.active(), Active::Low);
    assert!(info.is_open_drain());
    assert!(!info.is_open_source());
    assert_eq!(info.name(), "LED");
    assert_eq!(info.consumer(), "gpioset");
}

#[test]
fn v2_line_without_flags() {
    let info = decoded(v2_record(0, "GPIO17", ""));
    assert_eq!(info.direction(), Direction::Input);
    assert_eq!(info.active(), Active::High);
    assert_eq!(info.edge(), EdgeDetect::Disable);
    assert_eq!(info.bias(), Bias::Disable);
    assert_eq!(info.drive(), Drive::PushPull);
    assert!(!info.is_used());
    assert_eq!(info.name(), "GPIO17");
    assert_eq!(info.consumer(), "");
}

#[test]
fn v2_line_flags_one_by_one() {
    assert!(decoded(v2_record(0x01, "", "")).is_used());
    assert_eq!(decoded(v2_record(0x02, "", "")).active(), Active::Low);
    assert_eq!(decoded(v2_record(0x04, "", "")).direction(), Direction::Input);
    assert_eq!(decoded(v2_record(0x08, "", "")).direction(), Direction::Output);
    assert_eq!(decoded(v2_record(0x10, "", "")).edge(), EdgeDetect::Rising);
    assert_eq!(decoded(v2_record(0x20, "", "")).edge(), EdgeDetect::Falling);
    assert_eq!(decoded(v2_record(0x30, "", "")).edge(), EdgeDetect::Both);
    assert_eq!(decoded(v2_record(0x40, "", "")).drive(), Drive::OpenDrain);
    assert_eq!(decoded(v2_record(0x80, "", "")).drive(), Drive::OpenSource);
    assert_eq!(decoded(v2_record(0x100, "", "")).bias(), Bias::PullUp);
    assert_eq!(decoded(v2_record(0x200, "", "")).bias(), Bias::PullDown);
    assert_eq!(decoded(v2_record(0x400, "", "")).bias(), Bias::Disable);
}

#[test]
fn the_generations_read_the_same_flags_differently() {
    let flags = 0x02;
    let first = decoded(v1_record(flags, "", ""));
    let second = decoded(v2_record(flags as u64, "", ""));
    assert_eq!(first.direction(), Direction::Output);
    assert_eq!(first.active(), Active::High);
    assert_eq!(second.direction(), Direction::Input);
    assert_eq!(second.active(), Active::Low);
}

#[test]
fn names_that_are_not_text_are_refused() {
    let mut raw = v1::GpioLineInfo::default();
    raw.name[0] = 0xFF;
    assert_eq!(LineInfo::decode(&LineInfoData::V1(raw)).err(), Some(Error::InvalidData));
    let mut raw = v1::GpioLineInfo::default();
    raw.consumer[3] = 0x80;
    assert_eq!(LineInfo::decode(&LineInfoData::V1(raw)).err(), Some(Error::InvalidData));
    let mut raw = v2::GpioLineInfo::default();
    raw.name[31] = 0xC3;
    assert_eq!(LineInfo::decode(&LineInfoData::V2(raw)).err(), Some(Error::InvalidData));
    let mut raw = v2::GpioLineInfo::default();
    raw.consumer[0] = 0xF8;
    assert_eq!(LineInfo::decode(&LineInfoData::V2(raw)).err(), Some(Error::InvalidData));
}

#[test]
fn a_name_may_fill_its_field() {
    let name = "n".repeat(32);
    let info = decoded(v1_record(0, &name, "c"));
    assert_eq!(info.name(), name);
    assert_eq!(info.consumer(), "c");
}

#[test]
fn line_info_text() {
    assert_eq!(
        decoded(v1_record(0, "GPIO17", "")).to_string(),
        "\t Input\t Unused\t Unnamed\t Active high"
    );
    assert_eq!(
        decoded(v1_record(0x01 | 0x02 | 0x04 | 0x08, "LED", "gpioset")).to_string(),
        "\t Output\t Used\t gpioset\t Active low\t Open drain"
    );
    assert_eq!(
        decoded(v2_record(0x01 | 0x04 | 0x30, "BTN", "monitor")).to_string(),
        "\t Input\t Used\t monitor\t Active high\t Edge both"
    );
    assert_eq!(
        decoded(v2_record(0x08 | 0x80 | 0x10, "", "")).to_string(),
        "\t Output\t Unused\t Unnamed\t Active high\t Open source\t Edge rising"
    );
}

#[test]
fn v2_request_flags_read_back_as_the_settings() {
    for direction in [Direction::Input, Direction::Output] {
        for active in [Active::Low, Active::High] {
            for edge in
                [EdgeDetect::Disable, EdgeDetect::Rising, EdgeDetect::Falling, EdgeDetect::Both]
            {
                for bias in [Bias::Disable, Bias::PullUp, Bias::PullDown] {
                    for drive in [Drive::PushPull, Drive::OpenDrain, Drive::OpenSource] {
                        let settings = LineSettings { direction, active, edge, bias, drive };
                        let flags = match line_request(Abi::V2, settings, &[0], "") {
                            Ok(LineRequestData::V2(request)) => request.config.flags,
                            _ => panic!("no second-generation request"),
                        };
                        let info = decoded(v2_record(flags, "", ""));
                        assert_eq!(info.direction(), direction);
                        assert_eq!(info.active(), active);
                        assert_eq!(info.edge(), edge);
                        assert_eq!(info.bias(), bias);
                        assert_eq!(info.drive(), drive);
                        assert!(!info.is_used());
                    }
                }
            }
        }
    }
}
