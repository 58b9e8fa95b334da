use bpc::{symbol_to_pulse_width_ms, ZonedTimestamp, BPC};

fn at(hour12: u32, minute: u32, second: u32) -> ZonedTimestamp {
    ZonedTimestamp {
        year: 2024,
        month: 3,
        day: 15,
        weekday: 5,
        pm: true,
        hour12,
        minute,
        second,
        subsec_micros: 0,
    }
}

fn frame(t: ZonedTimestamp) -> Vec<Option<u8>> {
    let bpc = BPC::new();
    let mut symbols: Vec<Option<u8>> = Vec::new();
    let mut second: u32 = 0;
    while second < 60 {
        symbols.push(bpc.code(ZonedTimestamp { second, ..t }));
        second += 1;
    }
    symbols
}

fn symbols(values: [u8; 19]) -> Vec<Option<u8>> {
    let mut out: Vec<Option<u8>> = Vec::new();
    for v in values {
        out.push(Some(v));
    }
    out
}

#[test]
fn hour_test() {
    let hour: u32 = 9;
    let bpc = BPC::new();
    let high = bpc.code(at(hour, 0, 3));
    let low = bpc.code(at(hour, 0, 4));
    assert_eq!(high, Some(0b10));
    assert_eq!(low, Some(0b01));
}

#[test]
fn minute_test() {
    let minute: u32 = 15;
    let bpc = BPC::new();
    let high = bpc.code(at(1, minute, 5));
    let middle = bpc.code(at(1, minute, 6));
    let low = bpc.code(at(1, minute, 7));
    assert_eq!(high, Some(0b00));
    assert_eq!(middle, Some(0b11));
    assert_eq!(low, Some(0b11));
}

#[test]
fn frame_marker_carries_no_symbol() {
    let bpc = BPC::new();
    for second in [0u32, 20, 40] {
        assert_eq!(bpc.code(at(2, 7, second)), None);
        assert_eq!(bpc.signal_width(at(2, 7, second)), None);
    }
    assert_eq!(symbol_to_pulse_width_ms(None), None);
}

#[test]
fn every_other_second_carries_a_symbol() {
    let bpc = BPC::new();
    let mut second: u32 = 0;
    while second < 60 {
        let symbol = bpc.code(at(11, 59, second));
        assert_eq!(symbol.is_none(), second % 20 == 0);
        if let Some(s) = symbol {
            assert!(s <= 3);
        }
        second += 1;
    }
}

#[test]
fn pulse_width_of_each_symbol() {
    assert_eq!(symbol_to_pulse_width_ms(Some(0)), Some(100));
    assert_eq!(symbol_to_pulse_width_ms(Some(1)), Some(200));
    assert_eq!(symbol_to_pulse_width_ms(Some(2)), Some(300));
    assert_eq!(symbol_to_pulse_width_ms(Some(3)), Some(400));
}

#[test]
fn second_21_names_the_second_frame() {
    let t = ZonedTimestamp {
        year: 2024,
        month: 3,
        day: 15,
        weekday: 1,
        pm: true,
        hour12: 2,
        minute: 7,
        second: 21,
        subsec_micros: 0,
    };
    let bpc = BPC::new();
    assert_eq!(bpc.code(t), Some(1));
    assert_eq!(bpc.signal_width(t), Some(200));
}

#[test]
fn second_3_carries_the_high_hour_window() {
    let bpc = BPC::new();
    assert_eq!(bpc.code(at(9, 0, 3)), Some(2));
    assert_eq!(bpc.signal_width(at(9, 0, 3)), Some(300));
}

#[test]
fn frame_number_follows_the_absolute_second() {
    let bpc = BPC::new();
    assert_eq!(bpc.code(at(2, 7, 1)), Some(0));
    assert_eq!(bpc.code(at(2, 7, 21)), Some(1));
    assert_eq!(bpc.code(at(2, 7, 41)), Some(2));
}

#[test]
fn reserved_fragment_is_zero() {
    let bpc = BPC::new();
    for second in [2u32, 22, 42] {
        assert_eq!(bpc.code(at(12, 59, second)), Some(0));
    }
}

#[test]
fn whole_minute_of_an_afternoon_in_march() {
    let body: [u8; 19] = [0, 0, 0, 2, 0, 1, 3, 1, 1, 2, 0, 3, 3, 0, 3, 1, 2, 0, 0];
    let mut expected: Vec<Option<u8>> = Vec::new();
    for frame_number in 0u8..3 {
        let mut block = symbols(body);
        block[0] = Some(frame_number);
        expected.push(None);
        expected.extend(block);
    }
    // The time parity covers the frame code, which has an odd number of
    // one bits in the second frame only.
    expected[30] = Some(3);
    assert_eq!(frame(at(2, 7, 0)), expected);
}

#[test]
fn whole_minute_of_the_last_minute_of_2099() {
    let t = ZonedTimestamp {
        year: 2099,
        month: 12,
        day: 31,
        weekday: 7,
        pm: false,
        hour12: 12,
        minute: 59,
        second: 0,
        subsec_micros: 0,
    };
    let body: [u8; 19] = [0, 0, 3, 0, 3, 2, 3, 1, 3, 0, 1, 3, 3, 3, 0, 2, 0, 3, 2];
    let mut expected: Vec<Option<u8>> = Vec::new();
    for frame_number in 0u8..3 {
        let mut block = symbols(body);
        block[0] = Some(frame_number);
        expected.push(None);
        expected.extend(block);
    }
    expected[30] = Some(1);
    assert_eq!(frame(t), expected);
}

#[test]
fn whole_minute_of_the_first_minute_of_2000() {
    let t = ZonedTimestamp {
        year: 2000,
        month: 1,
        day: 1,
        weekday: 6,
        pm: false,
        hour12: 12,
        minute: 0,
        second: 0,
        subsec_micros: 0,
    };
    let body: [u8; 19] = [0, 0, 3, 0, 0, 0, 0, 1, 2, 0, 0, 0, 1, 0, 1, 0, 0, 0, 0];
    let mut expected: Vec<Option<u8>> = Vec::new();
    for frame_number in 0u8..3 {
        let mut block = symbols(body);
        block[0] = Some(frame_number);
        expected.push(None);
        expected.extend(block);
    }
    expected[30] = Some(1);
    assert_eq!(frame(t), expected);
}

#[test]
fn time_parity_counts_the_ones_of_the_frame_code() {
    // Hour 3 has two one bits, minute 0 none, weekday 1 one.
    let t = ZonedTimestamp {
        year: 2024,
        month: 3,
        day: 15,
        weekday: 1,
        pm: false,
        hour12: 3,
        minute: 0,
        second: 10,
        subsec_micros: 0,
    };
    let bpc = BPC::new();
    // Frame code 0: three ones in all.
    assert_eq!(bpc.code(t), Some(1));
    // Frame code 1: four ones.
    assert_eq!(bpc.code(ZonedTimestamp { second: 30, ..t }), Some(0));
    // Frame code 3 has two one bits: five ones.
    assert_eq!(bpc.code(ZonedTimestamp { second: 50, ..t }), Some(1));
}

#[test]
fn time_parity_is_not_the_parity_of_the_operands() {
    let bpc = BPC::new();
    let base = ZonedTimestamp {
        year: 2024,
        month: 1,
        day: 1,
        weekday: 1,
        pm: false,
        hour12: 4,
        minute: 0,
        second: 10,
        subsec_micros: 0,
    };
    // Hour 4 is even and has one one bit, weekday 1 has one: even parity.
    assert_eq!(bpc.code(base), Some(0));
    // Hour 3 is odd and has two one bits: odd parity.
    assert_eq!(bpc.code(ZonedTimestamp { hour12: 3, ..base }), Some(1));
    // Minute 5 is odd and has two one bits: parity unchanged.
    assert_eq!(bpc.code(ZonedTimestamp { minute: 5, ..base }), Some(0));
}

#[test]
fn afternoon_flag_is_the_high_bit_of_fragment_10() {
    let bpc = BPC::new();
    let morning = ZonedTimestamp { pm: false, ..at(2, 7, 10) };
    let afternoon = ZonedTimestamp { pm: true, ..at(2, 7, 10) };
    assert_eq!(bpc.code(morning), Some(0));
    assert_eq!(bpc.code(afternoon), Some(2));
}

#[test]
fn flipping_one_bit_of_an_operand_flips_the_time_parity() {
    let bpc = BPC::new();
    let base = ZonedTimestamp { pm: false, ..at(2, 7, 10) };
    let parity = bpc.code(base).unwrap();
    // Hour 2 to 3, to 6 and to 10: bits 0, 2 and 3.
    for hour12 in [3u32, 6, 10] {
        let flipped = bpc.code(ZonedTimestamp { hour12, ..base }).unwrap();
        assert_eq!(flipped, 1 - parity);
    }
    // Minute 7 to 6, 5, 3, 15, 23 and 39: bits 0 to 5.
    for minute in [6u32, 5, 3, 15, 23, 39] {
        let flipped = bpc.code(ZonedTimestamp { minute, ..base }).unwrap();
        assert_eq!(flipped, 1 - parity);
    }
    // Weekday 5 to 4, 7 and 1: bits 0, 1 and 2.
    for weekday in [4u32, 7, 1] {
        let flipped = bpc.code(ZonedTimestamp { weekday, ..base }).unwrap();
        assert_eq!(flipped, 1 - parity);
    }
    // Frame code 0 to 1: bit 0.
    let flipped = bpc.code(ZonedTimestamp { second: 30, ..base }).unwrap();
    assert_eq!(flipped, 1 - parity);
}

#[test]
fn date_parity_counts_the_ones_of_the_day() {
    let bpc = BPC::new();
    let t = ZonedTimestamp {
        year: 2000,
        month: 1,
        day: 3,
        weekday: 1,
        pm: false,
        hour12: 1,
        minute: 0,
        second: 19,
        subsec_micros: 0,
    };
    // Day 3 has two ones, month 1 one, year 0 none: odd.
    assert_eq!(bpc.code(t), Some(1));
    // Day 1 has one, month 1 one: even.
    assert_eq!(bpc.code(ZonedTimestamp { day: 1, ..t }), Some(0));
    // Year 2001 adds a one.
    assert_eq!(bpc.code(ZonedTimestamp { day: 1, year: 2001, ..t }), Some(1));
}

#[test]
fn year_is_carried_in_seven_bits() {
    let bpc = BPC::new();
    let base = ZonedTimestamp {
        year: 2000,
        month: 1,
        day: 1,
        weekday: 1,
        pm: false,
        hour12: 1,
        minute: 0,
        second: 16,
        subsec_micros: 0,
    };
    let cases: [(i32, [u8; 4]); 5] = [
        (2024, [1, 2, 0, 0]),
        (2063, [3, 3, 3, 0]),
        (2064, [0, 0, 0, 2]),
        (2100, [2, 1, 0, 2]),
        (2127, [3, 3, 3, 2]),
    ];
    for (year, expected) in cases {
        let mut got: [u8; 4] = [0; 4];
        for (i, second) in [16u32, 17, 18, 19].into_iter().enumerate() {
            got[i] = bpc.code(ZonedTimestamp { year, second, ..base }).unwrap();
        }
        assert_eq!(got, expected, "year {}", year);
        let decoded: i32 = 2000 + 64 * (got[3] >> 1) as i32 + 16 * got[0] as i32
            + 4 * got[1] as i32 + got[2] as i32;
        assert_eq!(decoded, year);
    }
}

#[test]
fn years_outside_the_window_are_truncated() {
    let bpc = BPC::new();
    let base = ZonedTimestamp {
        year: 2000,
        month: 1,
        day: 1,
        weekday: 1,
        pm: false,
        hour12: 1,
        minute: 0,
        second: 16,
        subsec_micros: 0,
    };
    let cases: [(i32, [u8; 4]); 6] = [
        (1999, [3, 3, 3, 2]),
        (2128, [0, 0, 0, 0]),
        (-262143, [3, 0, 1, 1]),
        (262142, [2, 3, 2, 0]),
        (i32::MIN, [3, 0, 0, 0]),
        (i32::MAX, [2, 3, 3, 1]),
    ];
    for (year, expected) in cases {
        let mut got: [u8; 4] = [0; 4];
        for (i, second) in [16u32, 17, 18, 19].into_iter().enumerate() {
            got[i] = bpc.code(ZonedTimestamp { year, second, ..base }).unwrap();
        }
        assert_eq!(got, expected, "year {}", year);
    }
}

#[test]
fn symbol_ignores_the_sub_second_part() {
    let bpc = BPC::new();
    let mut second: u32 = 0;
    while second < 60 {
        let early = at(7, 33, second);
        let late = ZonedTimestamp { subsec_micros: 999_999, ..early };
        assert_eq!(bpc.code(early), bpc.code(late));
        assert_eq!(bpc.code(early), bpc.code(early));
        second += 1;
    }
}

#[test]
fn half_of_the_day_matters_in_fragment_10_only() {
    let bpc = BPC::new();
    let mut second: u32 = 0;
    while second < 60 {
        let morning = ZonedTimestamp { pm: false, ..at(7, 33, second) };
        let afternoon = ZonedTimestamp { pm: true, ..at(7, 33, second) };
        assert_eq!(bpc.code(morning) == bpc.code(afternoon), second % 20 != 10);
        second += 1;
    }
}

#[test]
fn every_field_comes_back_from_its_symbols() {
    let bpc = BPC::new();
    let base = at(1, 0, 0);
    let read = |t: ZonedTimestamp, second: u32| -> u32 {
        bpc.code(ZonedTimestamp { second, ..t }).unwrap() as u32
    };
    for hour12 in 1u32..=12 {
        let t = ZonedTimestamp { hour12, ..base };
        assert_eq!(4 * read(t, 3) + read(t, 4), hour12);
    }
    for minute in 0u32..=59 {
        let t = ZonedTimestamp { minute, ..base };
        assert_eq!(16 * read(t, 5) + 4 * read(t, 6) + read(t, 7), minute);
    }
    for weekday in 1u32..=7 {
        let t = ZonedTimestamp { weekday, ..base };
        assert_eq!(4 * read(t, 8) + read(t, 9), weekday);
    }
    for day in 1u32..=31 {
        let t = ZonedTimestamp { day, ..base };
        assert_eq!(16 * read(t, 11) + 4 * read(t, 12) + read(t, 13), day);
    }
    for month in 1u32..=12 {
        let t = ZonedTimestamp { month, ..base };
        assert_eq!(4 * read(t, 14) + read(t, 15), month);
    }
    for year in 2000i32..=2127 {
        let t = ZonedTimestamp { year, ..base };
        let bits: u32 = 64 * (read(t, 19) >> 1) + 16 * read(t, 16) + 4 * read(t, 17) + read(t, 18);
        assert_eq!(2000 + bits as i32, year);
    }
}

#[test]
fn validity_follows_the_civil_ranges() {
    let good = at(12, 59, 59);
    assert!(good.is_valid());
    assert!(ZonedTimestamp { year: -5, ..good }.is_valid());
    assert!(!ZonedTimestamp { month: 0, ..good }.is_valid());
    assert!(!ZonedTimestamp { month: 13, ..good }.is_valid());
    assert!(!ZonedTimestamp { day: 0, ..good }.is_valid());
    assert!(!ZonedTimestamp { day: 32, ..good }.is_valid());
    assert!(!ZonedTimestamp { weekday: 0, ..good }.is_valid());
    assert!(!ZonedTimestamp { weekday: 8, ..good }.is_valid());
    assert!(!ZonedTimestamp { hour12: 0, ..good }.is_valid());
    assert!(!ZonedTimestamp { hour12: 13, ..good }.is_valid());
    assert!(!ZonedTimestamp { minute: 60, ..good }.is_valid());
    assert!(!ZonedTimestamp { second: 60, ..good }.is_valid());
    assert!(!ZonedTimestamp { subsec_micros: 1_000_000, ..good }.is_valid());
    assert!(ZonedTimestamp { subsec_micros: 999_999, ..good }.is_valid());
}
