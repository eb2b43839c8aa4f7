use gpiod::{BitId, Values};

#[test]
fn default_values_are_empty() {
    assert_eq!(Values::default(), Values { bits: 0, mask: 0 });
    for bit in 0..=255u8 {
        assert_eq!(Values::default().get(bit), None);
    }
}

#[test]
fn set_then_get_reads_the_value_back() {
    for bit in 0..64u8 {
        for val in [false, true] {
            let mut values = Values::default();
            values.set(bit, val);
            assert_eq!(values.get(bit), Some(val));
            let mut values = Values { bits: u64::MAX, mask: 0 };
            values.set(bit, val);
            assert_eq!(values.get(bit), Some(val));
        }
    }
}

#[test]
fn set_writes_exactly_one_position() {
    let mut values = Values::default();
    values.set(3, true);
    assert_eq!(values, Values { bits: 0b1000, mask: 0b1000 });
    values.set(0, false);
    assert_eq!(values, Values { bits: 0b1000, mask: 0b1001 });
    values.set(3, false);
    assert_eq!(values, Values { bits: 0, mask: 0b1001 });
    values.set(63, true);
    assert_eq!(values, Values { bits: 1 << 63, mask: (1 << 63) | 0b1001 });
}

#[test]
fn set_keeps_the_other_positions() {
    let before = Values { bits: 0xDEAD_BEEF_0123_4567, mask: 0x0F0F_F0F0_FFFF_0000 };
    for bit in 0..64u8 {
        let mut after = before;
        after.set(bit, bit % 2 == 0);
        for other in 0..64u8 {
            if other != bit {
                assert_eq!(after.get(other), before.get(other));
            }
        }
    }
}

#[test]
fn get_of_unmasked_position_is_none() {
    let values = Values { bits: 0b1111, mask: 0b0101 };
    assert_eq!(values.get(0), Some(true));
    assert_eq!(values.get(1), None);
    assert_eq!(values.get(2), Some(true));
    assert_eq!(values.get(3), None);
    let values = Values { bits: 0, mask: 0b10 };
    assert_eq!(values.get(1), Some(false));
}

#[test]
fn positions_out_of_range_are_ignored() {
    for bit in [64u8, 65, 128, 255] {
        let before = Values { bits: 0x1234, mask: u64::MAX };
        let mut values = before;
        values.set(bit, true);
        assert_eq!(values, before);
        values.set(bit, false);
        assert_eq!(values, before);
        assert_eq!(values.get(bit), None);
    }
}

#[test]
fn last_position_in_range_is_63() {
    let last: BitId = 63;
    let mut values = Values::default();
    values.set(last, true);
    assert_eq!(values.bits, 0x8000_0000_0000_0000);
    assert_eq!(values.mask, 0x8000_0000_0000_0000);
    assert_eq!(values.get(last), Some(true));
}

#[test]
fn u8_round_trip() {
    for word in 0..=u8::MAX {
        let values = Values::from(word);
        assert_eq!(values.bits, word as u64);
        assert_eq!(values.mask, 0xFF);
        assert_eq!(u8::from(values), word);
    }
}

#[test]
fn u16_round_trip() {
    for word in [0u16, 1, 0x00FF, 0x0100, 0xA55A, u16::MAX] {
        let values = Values::from(word);
        assert_eq!(values.bits, word as u64);
        assert_eq!(values.mask, 0xFFFF);
        assert_eq!(u16::from(values), word);
    }
}

#[test]
fn u32_round_trip() {
    for word in [0u32, 1, 0xFFFF, 0x0001_0000, 0xDEAD_BEEF, u32::MAX] {
        let values = Values::from(word);
        assert_eq!(values.bits, word as u64);
        assert_eq!(values.mask, 0xFFFF_FFFF);
        assert_eq!(u32::from(values), word);
    }
}

#[test]
fn u64_round_trip() {
    for word in [0u64, 1, 0xFFFF_FFFF, 0x1_0000_0000, 0xDEAD_BEEF_0BAD_F00D, u64::MAX] {
        let values = Values::from(word);
        assert_eq!(values.bits, word);
        assert_eq!(values.mask, u64::MAX);
        assert_eq!(u64::from(values), word);
    }
}

#[test]
fn narrow_words_take_the_low_positions() {
    let values = Values { bits: 0x0123_4567_89AB_CDEF, mask: 0 };
    assert_eq!(u8::from(values), 0xEF);
    assert_eq!(u16::from(values), 0xCDEF);
    assert_eq!(u32::from(values), 0x89AB_CDEF);
    assert_eq!(u64::from(values), 0x0123_4567_89AB_CDEF);
}

#[test]
fn into_follows_from() {
    let values: Values = 0b10u8.into();
    assert_eq!(values, Values { bits: 0b10, mask: 0xFF });
    let word: u16 = Values { bits: 0x1_2345, mask: 0 }.into();
    assert_eq!(word, 0x2345);
}
