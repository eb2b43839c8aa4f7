use gpiod::raw::{v1, v2, GpioChipInfo, LineInfoData};
use gpiod::{Abi, Chip, Direction, Error};

fn chip_info(name: &[u8], label: &[u8], lines: u32) -> GpioChipInfo {
    let mut info = GpioChipInfo::default();
    info.name[..name.len()].copy_from_slice(name);
    info.label[..label.len()].copy_from_slice(label);
    info.lines = lines;
    info
}

fn record(text: &[u8]) -> [u8; 16] {
    let mut record = [0u8; 16];
    record[..text.len()].copy_from_slice(text);
    record
}

#[test]
fn not_a_character_device() {
    assert_eq!(Chip::sysfs_dev_path(false, "gpiochip0"), Err(Error::NotCharDevice));
    assert_eq!(Chip::sysfs_dev_path(false, ""), Err(Error::NotCharDevice));
    assert!(Error::NotCharDevice.is_validation());
}

#[test]
fn path_of_the_device_number_record() {
    assert_eq!(
        Chip::sysfs_dev_path(true, "gpiochip0"),
        Ok(String::from("/sys/bus/gpio/devices/gpiochip0/dev"))
    );
    assert_eq!(
        Chip::sysfs_dev_path(true, "gpiochip12"),
        Ok(String::from("/sys/bus/gpio/devices/gpiochip12/dev"))
    );
    assert_eq!(Chip::sysfs_dev_path(true, ""), Ok(String::from("/sys/bus/gpio/devices//dev")));
}

#[test]
fn no_device_number_record() {
    assert_eq!(Chip::is_gpiochip_cdev(None, 254 << 8), Err(Error::NoSysfsRecord));
    assert!(Error::NoSysfsRecord.is_validation());
}

#[test]
fn device_number_record_matches() {
    assert_eq!(Chip::is_gpiochip_cdev(Some(&record(b"254:0\n")), 254 << 8), Ok(true));
    assert_eq!(Chip::is_gpiochip_cdev(Some(&record(b"254:3\n")), (254 << 8) | 3), Ok(true));
    assert_eq!(Chip::is_gpiochip_cdev(Some(&record(b"0:0\n")), 0), Ok(true));
    assert_eq!(Chip::is_gpiochip_cdev(Some(&record(b"1:255\n")), 0x1FF), Ok(true));
    assert_eq!(Chip::is_gpiochip_cdev(Some(&record(b"4095:17\n")), (4095 << 8) | 17), Ok(true));
}

#[test]
fn device_number_record_differs() {
    let mismatch = Err(Error::DeviceMismatch);
    assert_eq!(Chip::is_gpiochip_cdev(Some(&record(b"254:0\n")), (254 << 8) | 1), mismatch);
    assert_eq!(Chip::is_gpiochip_cdev(Some(&record(b"254:0\n")), 253 << 8), mismatch);
    assert_eq!(Chip::is_gpiochip_cdev(Some(&record(b"254:\n")), 254 << 8), mismatch);
    assert_eq!(Chip::is_gpiochip_cdev(Some(&record(b"254:00\n")), 254 << 8), mismatch);
    assert_eq!(Chip::is_gpiochip_cdev(Some(&record(b"0254:0\n")), 254 << 8), mismatch);
    assert_eq!(Chip::is_gpiochip_cdev(Some(&record(b" 254:0\n")), 254 << 8), mismatch);
    assert_eq!(Chip::is_gpiochip_cdev(Some(&record(b"\n254:0\n")), 254 << 8), mismatch);
    assert_eq!(Chip::is_gpiochip_cdev(Some(&record(b"")), 254 << 8), mismatch);
    assert!(Error::DeviceMismatch.is_validation());
}

#[test]
fn only_the_first_line_of_the_record_counts() {
    assert_eq!(Chip::is_gpiochip_cdev(Some(&record(b"254:0\n254:1\n")), 254 << 8), Ok(true));
    assert_eq!(
        Chip::is_gpiochip_cdev(Some(&record(b"254:0\n254:1\n")), (254 << 8) | 1),
        Err(Error::DeviceMismatch)
    );
    assert_eq!(
        Chip::is_gpiochip_cdev(Some(&record(b"254:0\n\xFF\xFF")), 254 << 8),
        Ok(true)
    );
}

#[test]
fn a_record_without_line_feed_is_read_up_to_its_last_byte() {
    assert_eq!(Chip::is_gpiochip_cdev(Some(&record(b"254:0")), 254 << 8), Ok(true));
    let record = *b"123456789012:255";
    assert_eq!(
        Chip::is_gpiochip_cdev(Some(&record), (123456789012 << 8) | 255),
        Err(Error::DeviceMismatch)
    );
    let record = *b"72057594037927:0";
    assert_eq!(
        Chip::is_gpiochip_cdev(Some(&record), 72057594037927 << 8),
        Err(Error::DeviceMismatch)
    );
    let record = *b"7205759403792:0\n";
    assert_eq!(Chip::is_gpiochip_cdev(Some(&record), 7205759403792 << 8), Ok(true));
}

#[test]
fn a_record_that_is_not_text_is_refused() {
    assert_eq!(
        Chip::is_gpiochip_cdev(Some(&record(b"25\xFF:0\n")), 254 << 8),
        Err(Error::InvalidData)
    );
    assert_eq!(Chip::is_gpiochip_cdev(Some(&record(b"\xC3\n")), 0), Err(Error::InvalidData));
    assert!(!Error::InvalidData.is_validation());
}

#[test]
fn chip_from_its_information() {
    for abi in [Abi::V1, Abi::V2] {
        let chip = match Chip::new(abi, &chip_info(b"gpiochip0", b"pinctrl-bcm2835", 54)) {
            Ok(chip) => chip,
            Err(e) => panic!("refused: {:?}", e),
        };
        assert_eq!(chip.abi(), abi);
        assert_eq!(chip.name(), "gpiochip0");
        assert_eq!(chip.label(), "pinctrl-bcm2835");
        assert_eq!(chip.num_lines(), 54);
    }
}

#[test]
fn chip_with_empty_label() {
    let chip = match Chip::new(Abi::V1, &chip_info(b"gpiochip1", b"", 0)) {
        Ok(chip) => chip,
        Err(e) => panic!("refused: {:?}", e),
    };
    assert_eq!(chip.name(), "gpiochip1");
    assert_eq!(chip.label(), "");
    assert_eq!(chip.num_lines(), 0);
}

#[test]
fn chip_with_names_that_fill_their_fields() {
    let name = [b'n'; 32];
    let label = [b'l'; 32];
    let chip = match Chip::new(Abi::V2, &chip_info(&name, &label, u32::MAX)) {
        Ok(chip) => chip,
        Err(e) => panic!("refused: {:?}", e),
    };
    assert_eq!(chip.name(), "n".repeat(32));
    assert_eq!(chip.label(), "l".repeat(32));
    assert_eq!(chip.num_lines(), u32::MAX);
}

#[test]
fn chip_whose_name_is_not_text_is_refused() {
    assert_eq!(
        Chip::new(Abi::V1, &chip_info(b"gpio\xFFchip", b"label", 4)).err(),
        Some(Error::InvalidData)
    );
    assert_eq!(
        Chip::new(Abi::V2, &chip_info(b"gpiochip0", b"\xE2\x82", 4)).err(),
        Some(Error::InvalidData)
    );
}

#[test]
fn chip_text() {
    let chip = match Chip::new(Abi::V1, &chip_info(b"gpiochip0", b"pinctrl-bcm2835", 54)) {
        Ok(chip) => chip,
        Err(e) => panic!("refused: {:?}", e),
    };
    assert_eq!(chip.to_string(), "gpiochip0 [pinctrl-bcm2835] (54 lines)");
    let chip = match Chip::new(Abi::V1, &chip_info(b"c", b"", 0)) {
        Ok(chip) => chip,
        Err(e) => panic!("refused: {:?}", e),
    };
    assert_eq!(chip.to_string(), "c [] (0 lines)");
}

#[test]
fn line_info_query_holds_the_offset() {
    let first = match Chip::new(Abi::V1, &chip_info(b"gpiochip0", b"", 4)) {
        Ok(chip) => chip,
        Err(e) => panic!("refused: {:?}", e),
    };
    let mut expected = v1::GpioLineInfo::default();
    expected.line_offset = 3;
    assert_eq!(first.line_info_query(3), LineInfoData::V1(expected));

    let second = match Chip::new(Abi::V2, &chip_info(b"gpiochip0", b"", 4)) {
        Ok(chip) => chip,
        Err(e) => panic!("refused: {:?}", e),
    };
    let mut expected = v2::GpioLineInfo::default();
    expected.offset = 1000;
    assert_eq!(second.line_info_query(1000), LineInfoData::V2(expected));
}

#[test]
fn line_info_through_the_chip() {
    let chip = match Chip::new(Abi::V1, &chip_info(b"gpiochip0", b"", 4)) {
        Ok(chip) => chip,
        Err(e) => panic!("refused: {:?}", e),
    };
    let mut raw = v1::GpioLineInfo::default();
    raw.line_offset = 2;
    raw.flags = 0x02;
    raw.name[..3].copy_from_slice(b"LED");
    let info = match chip.line_info(&LineInfoData::V1(raw)) {
        Ok(info) => info,
        Err(e) => panic!("refused: {:?}", e),
    };
    assert_eq!(info.direction(), Direction::Output);
    assert_eq!(info.name(), "LED");
    raw.name[5] = 0xFF;
    assert_eq!(chip.line_info(&LineInfoData::V1(raw)).err(), Some(Error::InvalidData));
}
