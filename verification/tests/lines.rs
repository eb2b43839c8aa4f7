use gpiod::raw::{v1, v2, GpioChipInfo, LineEventData, LineValuesData};
use gpiod::{Abi, Active, Bias, Chip, Drive, Edge, EdgeDetect, Error, Event, Inputs, Outputs, Values};

fn four_line_chip(abi: Abi) -> Chip {
    let mut info = GpioChipInfo::default();
    info.name[..9].copy_from_slice(b"gpiochip0");
    info.lines = 4;
    match Chip::new(abi, &info) {
        Ok(chip) => chip,
        Err(e) => panic!("refused: {:?}", e),
    }
}

fn inputs(abi: Abi, offsets: &[u32]) -> Inputs {
    let chip = four_line_chip(abi);
    match chip.request_input(offsets, Active::High, EdgeDetect::Both, Bias::Disable, "in") {
        Ok((_, inputs)) => inputs,
        Err(e) => panic!("refused: {:?}", e),
    }
}

fn outputs(abi: Abi, offsets: &[u32], active: Active) -> Outputs {
    let chip = four_line_chip(abi);
    let granted =
        chip.request_output(offsets, active, EdgeDetect::Disable, Bias::Disable, Drive::PushPull, "out");
    match granted {
        Ok((_, outputs)) => outputs,
        Err(e) => panic!("refused: {:?}", e),
    }
}

fn handle_data(bytes: &[u8]) -> LineValuesData {
    let mut data = v1::GpioHandleData::default();
    data.values[..bytes.len()].copy_from_slice(bytes);
    LineValuesData::V1(data)
}

#[test]
fn v1_values_are_read_by_position() {
    let inputs = inputs(Abi::V1, &[7, 2, 9]);
    let data = handle_data(&[1, 0, 1]);
    let values: Values = inputs.read_values(&data);
    assert_eq!(values, Values { bits: 0b101, mask: 0b111 });
    assert_eq!(values.get(0), Some(true));
    assert_eq!(values.get(1), Some(false));
    assert_eq!(values.get(2), Some(true));
    assert_eq!(values.get(3), None);
}

#[test]
fn v1_values_beyond_the_request_are_not_read() {
    let inputs = inputs(Abi::V1, &[7, 2, 9]);
    let data = LineValuesData::V1(v1::GpioHandleData { values: [1u8; 64] });
    let values = inputs.read_values(&data);
    assert_eq!(values, Values { bits: 0b111, mask: 0b111 });
    for bit in 3..=255u8 {
        assert_eq!(values.get(bit), None);
    }
}

#[test]
fn v1_any_byte_but_zero_is_active() {
    let inputs = inputs(Abi::V1, &[0, 1, 2, 3]);
    let values = inputs.read_values(&handle_data(&[2, 0xFF, 0, 0x80]));
    assert_eq!(values, Values { bits: 0b1011, mask: 0b1111 });
}

#[test]
fn v1_values_of_a_full_request() {
    let offsets: Vec<u32> = (0..64).collect();
    let inputs = inputs(Abi::V1, &offsets);
    let mut bytes = [0u8; 64];
    bytes[0] = 1;
    bytes[63] = 1;
    let values = inputs.read_values(&handle_data(&bytes));
    assert_eq!(values, Values { bits: (1 << 63) | 1, mask: u64::MAX });
}

#[test]
fn v1_values_of_an_empty_request() {
    let inputs = inputs(Abi::V1, &[]);
    let values = inputs.read_values(&handle_data(&[1, 1, 1]));
    assert_eq!(values, Values { bits: 0, mask: 0 });
}

#[test]
fn v2_values_are_taken_as_they_are() {
    let inputs = inputs(Abi::V2, &[7, 2, 9]);
    let data = LineValuesData::V2(v2::GpioLineValues { bits: 0xF5, mask: 0x0F });
    assert_eq!(inputs.read_values(&data), Values { bits: 0xF5, mask: 0x0F });
}

#[test]
fn get_values_converts_to_what_is_asked_for() {
    let inputs = inputs(Abi::V1, &[7, 2, 9]);
    let data = handle_data(&[1, 0, 1]);
    let byte: u8 = inputs.get_values(&data);
    assert_eq!(byte, 0b101);
    let word: u32 = inputs.get_values(&data);
    assert_eq!(word, 0b101);
    let values: Values = inputs.get_values(&data);
    assert_eq!(values, Values { bits: 0b101, mask: 0b111 });
    let outputs = outputs(Abi::V2, &[7, 2, 9], Active::High);
    let data = LineValuesData::V2(v2::GpioLineValues { bits: 0x1_0000_0006, mask: 0x7 });
    let long: u64 = outputs.get_values(&data);
    assert_eq!(long, 0x1_0000_0006);
    let short: u16 = outputs.get_values(&data);
    assert_eq!(short, 6);
    assert_eq!(outputs.read_values(&data), Values { bits: 0x1_0000_0006, mask: 0x7 });
}

#[test]
fn values_query_is_the_empty_record() {
    assert_eq!(
        inputs(Abi::V1, &[1, 2]).values_query(),
        LineValuesData::V1(v1::GpioHandleData { values: [0u8; 64] })
    );
    assert_eq!(
        inputs(Abi::V2, &[1, 2]).values_query(),
        LineValuesData::V2(v2::GpioLineValues { bits: 0, mask: 0 })
    );
    assert_eq!(
        outputs(Abi::V1, &[1, 2], Active::High).values_query(),
        LineValuesData::V1(v1::GpioHandleData { values: [0u8; 64] })
    );
    assert_eq!(
        outputs(Abi::V2, &[1, 2], Active::High).values_query(),
        LineValuesData::V2(v2::GpioLineValues { bits: 0, mask: 0 })
    );
}

#[test]
fn two_outputs_of_four_lines_active_low() {
    let values = Values { bits: 0b10, mask: 0b11 };

    let first = outputs(Abi::V1, &[1, 3], Active::Low);
    assert_eq!(first.lines(), &[1, 3]);
    let mut bytes = [0u8; 64];
    bytes[0] = 0;
    bytes[1] = 1;
    assert_eq!(first.set_values(values), LineValuesData::V1(v1::GpioHandleData { values: bytes }));
    assert_eq!(first.set_values(0b10u8), LineValuesData::V1(v1::GpioHandleData { values: bytes }));

    let second = outputs(Abi::V2, &[1, 3], Active::Low);
    assert_eq!(second.lines(), &[1, 3]);
    assert_eq!(
        second.set_values(values),
        LineValuesData::V2(v2::GpioLineValues { bits: 0b10, mask: 0b11 })
    );
}

#[test]
fn v2_values_are_handed_on_as_they_are() {
    let outputs = outputs(Abi::V2, &[1, 3], Active::High);
    assert_eq!(
        outputs.set_values(0b10u8),
        LineValuesData::V2(v2::GpioLineValues { bits: 0b10, mask: 0xFF })
    );
    assert_eq!(
        outputs.write_values(Values { bits: 0xABCD, mask: 0x00F0 }),
        LineValuesData::V2(v2::GpioLineValues { bits: 0xABCD, mask: 0x00F0 })
    );
    assert_eq!(
        outputs.set_values(u64::MAX),
        LineValuesData::V2(v2::GpioLineValues { bits: u64::MAX, mask: u64::MAX })
    );
}

#[test]
fn v1_unmasked_positions_are_written_as_inactive() {
    let outputs = outputs(Abi::V1, &[4, 5, 6, 7], Active::High);
    let mut bytes = [0u8; 64];
    bytes[0] = 1;
    bytes[3] = 1;
    assert_eq!(
        outputs.write_values(Values { bits: 0b1111, mask: 0b1001 }),
        LineValuesData::V1(v1::GpioHandleData { values: bytes })
    );
}

#[test]
fn v1_positions_beyond_the_request_are_not_written() {
    let outputs = outputs(Abi::V1, &[4, 5], Active::High);
    let mut bytes = [0u8; 64];
    bytes[0] = 1;
    bytes[1] = 1;
    assert_eq!(
        outputs.set_values(u64::MAX),
        LineValuesData::V1(v1::GpioHandleData { values: bytes })
    );
    assert_eq!(
        outputs.set_values(0xFFu8),
        LineValuesData::V1(v1::GpioHandleData { values: bytes })
    );
}

#[test]
fn v1_values_written_read_back() {
    let offsets: Vec<u32> = (10..74).collect();
    let outputs = outputs(Abi::V1, &offsets, Active::High);
    for word in [0u64, 1, 0xDEAD_BEEF_0BAD_F00D, u64::MAX] {
        let data = outputs.set_values(word);
        let back: u64 = outputs.get_values(&data);
        assert_eq!(back, word);
    }
    let data = outputs.write_values(Values { bits: 0b110, mask: 0b011 });
    assert_eq!(outputs.read_values(&data), Values { bits: 0b010, mask: u64::MAX });
}

fn v2_event(offset: u32, id: u32, timestamp_ns: u64) -> LineEventData {
    let mut event = v2::GpioLineEvent::default();
    event.offset = offset;
    event.id = id;
    event.timestamp_ns = timestamp_ns;
    event.seqno = 9;
    event.line_seqno = 4;
    LineEventData::V2(event)
}

#[test]
fn v2_event_names_the_line_by_position() {
    let inputs = inputs(Abi::V2, &[7, 2, 9]);
    assert_eq!(
        inputs.read_event(&v2_event(9, 1, 1_000)),
        Ok(Event { line: 2, edge: Edge::Rising, time: 1_000 })
    );
    assert_eq!(
        inputs.read_event(&v2_event(7, 2, u64::MAX)),
        Ok(Event { line: 0, edge: Edge::Falling, time: u64::MAX })
    );
    assert_eq!(
        inputs.read_event(&v2_event(2, 2, 0)),
        Ok(Event { line: 1, edge: Edge::Falling, time: 0 })
    );
}

#[test]
fn v2_event_with_unknown_code_is_refused() {
    let inputs = inputs(Abi::V2, &[7, 2, 9]);
    for id in [0u32, 3, 4, u32::MAX] {
        assert_eq!(inputs.read_event(&v2_event(7, id, 5)), Err(Error::InvalidData));
    }
}

#[test]
fn v2_event_on_a_line_not_requested_is_refused() {
    let inputs = inputs(Abi::V2, &[7, 2, 9]);
    for offset in [0u32, 1, 3, 8, u32::MAX] {
        assert_eq!(inputs.read_event(&v2_event(offset, 1, 5)), Err(Error::InvalidData));
    }
    assert_eq!(self::inputs(Abi::V2, &[]).read_event(&v2_event(0, 1, 5)), Err(Error::InvalidData));
}

#[test]
fn v1_event_names_the_line_by_position() {
    let inputs = inputs(Abi::V1, &[7, 2, 9]);
    let event = v1::GpioEventData { timestamp: 77, id: 1 };
    assert_eq!(
        inputs.read_event(&LineEventData::V1 { line: 2, event }),
        Ok(Event { line: 1, edge: Edge::Rising, time: 77 })
    );
    let event = v1::GpioEventData { timestamp: 78, id: 2 };
    assert_eq!(
        inputs.read_event(&LineEventData::V1 { line: 9, event }),
        Ok(Event { line: 2, edge: Edge::Falling, time: 78 })
    );
}

#[test]
fn v1_event_that_cannot_be_placed_is_refused() {
    let inputs = inputs(Abi::V1, &[7, 2, 9]);
    let event = v1::GpioEventData { timestamp: 77, id: 1 };
    assert_eq!(inputs.read_event(&LineEventData::V1 { line: 3, event }), Err(Error::InvalidData));
    let event = v1::GpioEventData { timestamp: 77, id: 3 };
    assert_eq!(inputs.read_event(&LineEventData::V1 { line: 7, event }), Err(Error::InvalidData));
    let event = v1::GpioEventData { timestamp: 77, id: 0 };
    assert_eq!(inputs.read_event(&LineEventData::V1 { line: 7, event }), Err(Error::InvalidData));
}

#[test]
fn events_on_outputs() {
    let outputs = outputs(Abi::V2, &[5, 6], Active::High);
    assert_eq!(
        outputs.read_event(&v2_event(6, 1, 3)),
        Ok(Event { line: 1, edge: Edge::Rising, time: 3 })
    );
    assert_eq!(outputs.read_event(&v2_event(4, 1, 3)), Err(Error::InvalidData));
}

#[test]
fn an_offset_given_twice_has_its_last_position() {
    let inputs = inputs(Abi::V2, &[4, 8, 4, 8, 4]);
    assert_eq!(
        inputs.read_event(&v2_event(4, 1, 0)),
        Ok(Event { line: 4, edge: Edge::Rising, time: 0 })
    );
    assert_eq!(
        inputs.read_event(&v2_event(8, 1, 0)),
        Ok(Event { line: 3, edge: Edge::Rising, time: 0 })
    );
}

#[test]
fn last_line_of_a_full_request_has_position_63() {
    let offsets: Vec<u32> = (1000..1064).collect();
    let inputs = inputs(Abi::V2, &offsets);
    assert_eq!(
        inputs.read_event(&v2_event(1063, 2, 1)),
        Ok(Event { line: 63, edge: Edge::Falling, time: 1 })
    );
    assert_eq!(
        inputs.read_event(&v2_event(1000, 2, 1)),
        Ok(Event { line: 0, edge: Edge::Falling, time: 1 })
    );
}

#[test]
fn only_the_second_generation_has_an_event_record() {
    assert_eq!(inputs(Abi::V1, &[1]).event_record(), None);
    assert_eq!(outputs(Abi::V1, &[1], Active::High).event_record(), None);
    let empty = Some(LineEventData::V2(v2::GpioLineEvent::default()));
    assert_eq!(inputs(Abi::V2, &[1]).event_record(), empty);
    assert_eq!(outputs(Abi::V2, &[1], Active::High).event_record(), empty);
}
