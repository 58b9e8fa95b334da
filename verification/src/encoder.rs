//! The time code: which two-bit symbol each second of the minute carries.
//!
//! A minute holds three frames of twenty seconds. The position of a second
//! within its frame, the fragment, selects the field that the second
//! transmits. Fields wider than two bits are sent most significant window
//! first.
//!
//! | fragment | symbol |
//! |---|---|
//! | 0 | none: the frame marker |
//! | 1 | frame number within the minute |
//! | 2 | reserved, always 0 |
//! | 3, 4 | hour on the twelve-hour clock |
//! | 5, 6, 7 | minute |
//! | 8, 9 | weekday |
//! | 10 | afternoon flag and parity of the time fields |
//! | 11, 12, 13 | day of the month |
//! | 14, 15 | month |
//! | 16, 17, 18 | low six bits of the year |
//! | 19 | seventh bit of the year and parity of the date fields |
//!
//! The year travels as its distance from 2000, of which the code holds the
//! low seven bits. Years from 2000 to 2127 are carried exactly; any other
//! year is truncated to those seven bits, never rejected.

use crate::bits::{
    lemma_flip_changes_popcount, lemma_join_flags, lemma_popcount_le, lemma_windows, parity_bit,
    popcount,
};
use crate::timestamp::ZonedTimestamp;
use vstd::prelude::*;

verus! {

/// First calendar year of the window that the code can carry.
pub const YEAR_BASE: i32 = 2000;

/// Position of a second within its twenty-second frame.
pub open spec fn fragment(second: nat) -> nat {
    second % 20
}

/// The code that stands for the frame of a second in the time parity:
/// 0 up to second 20, 1 up to second 40, 3 after that.
pub open spec fn second_range_code(second: nat) -> nat {
    if second <= 20 {
        0
    } else if second <= 40 {
        1
    } else {
        3
    }
}

/// The seven bits of the year that the code carries.
pub open spec fn year_bits(year: int) -> nat {
    ((year - YEAR_BASE) % 128) as nat
}

/// Even parity over the one bits of four operands.
pub open spec fn even_parity4(a: nat, b: nat, c: nat, d: nat) -> nat {
    parity_bit(popcount(a) + popcount(b) + popcount(c) + popcount(d))
}

/// Even parity over the one bits of three operands.
pub open spec fn even_parity3(a: nat, b: nat, c: nat) -> nat {
    parity_bit(popcount(a) + popcount(b) + popcount(c))
}

/// Parity bit of fragment 10, over the frame code and the time fields.
pub open spec fn time_check_bit(t: ZonedTimestamp) -> nat {
    even_parity4(
        second_range_code(t.second as nat),
        t.hour12 as nat,
        t.minute as nat,
        t.weekday as nat,
    )
}

/// Parity bit of fragment 19, over the date fields and the low six year bits.
pub open spec fn date_check_bit(t: ZonedTimestamp) -> nat {
    even_parity3(t.day as nat, t.month as nat, year_bits(t.year as int) % 64)
}

/// The symbol transmitted in the second that contains `t`, or `None` at the
/// frame marker.
pub open spec fn encoded_symbol(t: ZonedTimestamp) -> Option<nat> {
    let f = fragment(t.second as nat);
    let year = year_bits(t.year as int);
    if f == 0 {
        None
    } else if f == 1 {
        Some((t.second / 20) as nat)
    } else if f == 2 {
        Some(0)
    } else if f == 3 {
        Some((t.hour12 / 4) as nat)
    } else if f == 4 {
        Some((t.hour12 % 4) as nat)
    } else if f == 5 {
        Some((t.minute / 16) as nat)
    } else if f == 6 {
        Some(((t.minute / 4) % 4) as nat)
    } else if f == 7 {
        Some((t.minute % 4) as nat)
    } else if f == 8 {
        Some((t.weekday / 4) as nat)
    } else if f == 9 {
        Some((t.weekday % 4) as nat)
    } else if f == 10 {
        Some(
            if t.pm {
                2 + time_check_bit(t)
            } else {
                time_check_bit(t)
            },
        )
    } else if f == 11 {
        Some((t.day / 16) as nat)
    } else if f == 12 {
        Some(((t.day / 4) % 4) as nat)
    } else if f == 13 {
        Some((t.day % 4) as nat)
    } else if f == 14 {
        Some((t.month / 4) as nat)
    } else if f == 15 {
        Some((t.month % 4) as nat)
    } else if f == 16 {
        Some((year / 16) % 4)
    } else if f == 17 {
        Some((year / 4) % 4)
    } else if f == 18 {
        Some(year % 4)
    } else {
        Some(2 * (year / 64) + date_check_bit(t))
    }
}

/// Width in milliseconds of the pulse that carries a symbol. The frame
/// marker carries no pulse.
pub open spec fn pulse_width_ms(symbol: Option<nat>) -> Option<nat> {
    match symbol {
        Some(s) => Some(100 * (s + 1)),
        None => None,
    }
}

/// An optional symbol as an optional natural number.
pub open spec fn symbol_nat(symbol: Option<u8>) -> Option<nat> {
    match symbol {
        Some(s) => Some(s as nat),
        None => None,
    }
}

/// An optional width as an optional natural number.
pub open spec fn width_nat(width: Option<u32>) -> Option<nat> {
    match width {
        Some(w) => Some(w as nat),
        None => None,
    }
}

/// Maps a symbol to the width of its pulse in milliseconds: 100 for symbol
/// 0 up to 400 for symbol 3, and no pulse for the frame marker.
pub fn symbol_to_pulse_width_ms(symbol: Option<u8>) -> (width: Option<u32>)
    requires
        symbol matches Some(s) ==> s <= 3,
    ensures
        width_nat(width) == pulse_width_ms(symbol_nat(symbol)),
        width is None <==> symbol is None,
{
    match symbol {
        Some(0b00) => Some(100),
        Some(0b01) => Some(200),
        Some(0b10) => Some(300),
        Some(_) => Some(400),
        None => None,
    }
}

/// The low seven bits of the distance of `year` from the base year.
fn year_window(year: i32) -> (bits: u32)
    ensures
        bits == year_bits(year as int),
        bits < 128,
{
    // 2_147_483_696 is 2^31 + 2048 - 2000: it moves every year above zero
    // and leaves the remainder by 128 of its distance from 2000 unchanged.
    let lifted: u64 = (year as i64 + 2_147_483_696) as u64;
    (lifted % 128) as u32
}

/// The BPC time code.
pub struct BPC {}

impl BPC {
    pub fn new() -> (bpc: Self) {
        Self {  }
    }

    /// Width in milliseconds of the pulse to transmit in the second that
    /// contains `t`, or `None` where that second is a frame marker.
    pub fn signal_width(&self, t: ZonedTimestamp) -> (width: Option<u32>)
        requires
            t.wf(),
        ensures
            width_nat(width) == pulse_width_ms(encoded_symbol(t)),
            width is None <==> t.second % 20 == 0,
            width matches Some(w) ==> 100 <= w <= 400,
    {
        symbol_to_pulse_width_ms(self.code(t))
    }

    /// The symbol to transmit in the second that contains `now`, or `None`
    /// where that second is a frame marker.
    pub fn code(&self, now: ZonedTimestamp) -> (symbol: Option<u8>)
        requires
            now.wf(),
        ensures
            symbol_nat(symbol) == encoded_symbol(now),
            symbol is None <==> now.second % 20 == 0,
            symbol matches Some(s) ==> s <= 3,
    {
        let year = year_window(now.year);
        let month = now.month;
        let day = now.day;
        let weekday = now.weekday;
        let pm = now.pm;
        let hour = now.hour12;
        let minute = now.minute;
        let second = now.second;

        proof {
            lemma_windows(year);
            lemma_windows(month);
            lemma_windows(day);
            lemma_windows(weekday);
            lemma_windows(hour);
            lemma_windows(minute);
        }

        let fragment = second % 20;
        match fragment {
            0 => None,
            1 => {
                let v: u32 = match second {
                    1 => 0,
                    21 => 1,
                    _ => {
                        assert(second == 41);
                        2
                    },
                };
                Some(v as u8)
            },
            2 => Some(0),
            3 => {
                let high = hour >> 2;
                Some(high as u8)
            },
            4 => {
                let low = hour & 0b11;
                Some(low as u8)
            },
            5 => {
                let high = minute >> 4;
                Some(high as u8)
            },
            6 => {
                let middle = (minute >> 2) & 0b11;
                Some(middle as u8)
            },
            7 => {
                let low = minute & 0b11;
                Some(low as u8)
            },
            8 => {
                let high = weekday >> 2;
                Some(high as u8)
            },
            9 => {
                let low = weekday & 0b11;
                Some(low as u8)
            },
            10 => {
                let afternoon: u32 = if pm {
                    1
                } else {
                    0
                };
                let s: u32 = if second <= 20 {
                    0b00
                } else if second <= 40 {
                    0b01
                } else {
                    0b11
                };
                proof {
                    lemma_popcount_le(s as nat);
                    lemma_popcount_le(hour as nat);
                    lemma_popcount_le(minute as nat);
                    lemma_popcount_le(weekday as nat);
                }
                let c = s.count_ones() + hour.count_ones() + minute.count_ones()
                    + weekday.count_ones();
                let check: u32 = if c % 2 == 0 {
                    0b0
                } else {
                    0b1
                };
                proof {
                    lemma_join_flags(afternoon, check);
                }
                let v = (afternoon << 1) | check;
                Some(v as u8)
            },
            11 => {
                let high = day >> 4;
                Some(high as u8)
            },
            12 => {
                let middle = (day >> 2) & 0b11;
                Some(middle as u8)
            },
            13 => {
                let low = day & 0b11;
                Some(low as u8)
            },
            14 => {
                let high = month >> 2;
                Some(high as u8)
            },
            15 => {
                let low = month & 0b11;
                Some(low as u8)
            },
            16 => {
                let high = (year >> 4) & 0b11;
                Some(high as u8)
            },
            17 => {
                let middle = (year >> 2) & 0b11;
                Some(middle as u8)
            },
            18 => {
                let low = year & 0b11;
                Some(low as u8)
            },
            _ => {
                assert(fragment == 19);
                let year_highest = (year >> 6) & 0b1;
                let low_year = year & 0b111111;
                proof {
                    lemma_popcount_le(day as nat);
                    lemma_popcount_le(month as nat);
                    lemma_popcount_le(low_year as nat);
                }
                let c = day.count_ones() + month.count_ones() + low_year.count_ones();
                let check: u32 = if c % 2 == 0 {
                    0b0
                } else {
                    0b1
                };
                proof {
                    lemma_join_flags(year_highest, check);
                }
                let v = (year_highest << 1) | check;
                Some(v as u8)
            },
        }
    }
}

/// The symbol that `t` would carry if its second were `slot`.
pub open spec fn symbol_in_slot(t: ZonedTimestamp, slot: nat) -> Option<nat> {
    encoded_symbol(ZonedTimestamp { second: slot as u32, ..t })
}

/// The value of a symbol, with the frame marker read as zero.
pub open spec fn slot_value(t: ZonedTimestamp, slot: nat) -> nat {
    match symbol_in_slot(t, slot) {
        Some(s) => s,
        None => 0,
    }
}

/// Every symbol is a two-bit value.
pub proof fn lemma_symbol_is_two_bits(t: ZonedTimestamp)
    requires
        t.wf(),
    ensures
        encoded_symbol(t) matches Some(s) ==> s <= 3,
        encoded_symbol(t) is None <==> t.second % 20 == 0,
{
}

/// The symbol depends on the calendar fields and the second alone: two
/// timestamps that agree on them carry the same symbol, whatever their
/// sub-second parts. The half of the day matters in fragment 10 only.
pub proof fn lemma_symbol_depends_on_civil_fields(a: ZonedTimestamp, b: ZonedTimestamp)
    requires
        a.hour12 == b.hour12,
        a.minute == b.minute,
        a.day == b.day,
        a.month == b.month,
        a.weekday == b.weekday,
        a.year == b.year,
        a.second == b.second,
        a.second % 20 == 10 ==> a.pm == b.pm,
    ensures
        encoded_symbol(a) == encoded_symbol(b),
{
}

/// The low bit of fragment 10 is the even parity of the frame code, the
/// hour, the minute and the weekday; its high bit is the afternoon flag.
pub proof fn lemma_time_check_symbol(t: ZonedTimestamp)
    requires
        t.wf(),
        t.second % 20 == 10,
    ensures
        encoded_symbol(t) matches Some(s) && s % 2 == even_parity4(
            second_range_code(t.second as nat),
            t.hour12 as nat,
            t.minute as nat,
            t.weekday as nat,
        ) && (s >= 2 <==> t.pm),
{
}

/// Flipping any one bit of any one of the four operands inverts their even
/// parity.
pub proof fn lemma_bit_flip_inverts_parity(a: u32, b: u32, c: u32, d: u32, k: u32)
    requires
        k < 32,
    ensures
        even_parity4((a ^ (1u32 << k)) as nat, b as nat, c as nat, d as nat) == 1 - even_parity4(
            a as nat,
            b as nat,
            c as nat,
            d as nat,
        ),
        even_parity4(a as nat, (b ^ (1u32 << k)) as nat, c as nat, d as nat) == 1 - even_parity4(
            a as nat,
            b as nat,
            c as nat,
            d as nat,
        ),
        even_parity4(a as nat, b as nat, (c ^ (1u32 << k)) as nat, d as nat) == 1 - even_parity4(
            a as nat,
            b as nat,
            c as nat,
            d as nat,
        ),
        even_parity4(a as nat, b as nat, c as nat, (d ^ (1u32 << k)) as nat) == 1 - even_parity4(
            a as nat,
            b as nat,
            c as nat,
            d as nat,
        ),
{
    lemma_flip_changes_popcount(a, k);
    lemma_flip_changes_popcount(b, k);
    lemma_flip_changes_popcount(c, k);
    lemma_flip_changes_popcount(d, k);
}

/// A value below 64 is the weighted sum of its three two-bit windows, and a
/// value below 16 of its two.
proof fn lemma_windows_sum(x: nat)
    ensures
        x < 64 ==> x == 16 * (x / 16) + 4 * ((x / 4) % 4) + x % 4,
        x < 16 ==> x == 4 * (x / 4) + x % 4,
        x < 128 ==> x == 64 * (x / 64) + 16 * ((x / 16) % 4) + 4 * ((x / 4) % 4) + x % 4,
{
}

/// The time fields are the weighted sums of the symbols that carry them.
pub proof fn lemma_time_fields_recovered(t: ZonedTimestamp)
    requires
        t.wf(),
    ensures
        t.hour12 == 4 * slot_value(t, 3) + slot_value(t, 4),
        t.minute == 16 * slot_value(t, 5) + 4 * slot_value(t, 6) + slot_value(t, 7),
        t.weekday == 4 * slot_value(t, 8) + slot_value(t, 9),
        t.pm <==> slot_value(t, 10) >= 2,
{
    lemma_windows_sum(t.hour12 as nat);
    lemma_windows_sum(t.minute as nat);
    lemma_windows_sum(t.weekday as nat);
    let at10 = ZonedTimestamp { second: 10, ..t };
    assert(time_check_bit(at10) <= 1);
    assert(slot_value(t, 3) == t.hour12 / 4);
    assert(slot_value(t, 4) == t.hour12 % 4);
    assert(slot_value(t, 5) == t.minute / 16);
    assert(slot_value(t, 6) == (t.minute / 4) % 4);
    assert(slot_value(t, 7) == t.minute % 4);
    assert(slot_value(t, 8) == t.weekday / 4);
    assert(slot_value(t, 9) == t.weekday % 4);
}

/// The date fields are the weighted sums of the symbols that carry them.
/// The year comes back whole where it lies in the window of 128 years that
/// starts at the base year, and as its low seven bits elsewhere.
pub proof fn lemma_date_fields_recovered(t: ZonedTimestamp)
    requires
        t.wf(),
    ensures
        t.day == 16 * slot_value(t, 11) + 4 * slot_value(t, 12) + slot_value(t, 13),
        t.month == 4 * slot_value(t, 14) + slot_value(t, 15),
        year_bits(t.year as int) == 64 * (slot_value(t, 19) / 2) + 16 * slot_value(t, 16) + 4
            * slot_value(t, 17) + slot_value(t, 18),
        YEAR_BASE <= t.year < YEAR_BASE + 128 ==> t.year == YEAR_BASE + year_bits(t.year as int),
{
    let year = year_bits(t.year as int);
    lemma_windows_sum(t.day as nat);
    lemma_windows_sum(t.month as nat);
    lemma_windows_sum(year);
    let at19 = ZonedTimestamp { second: 19, ..t };
    assert(date_check_bit(at19) <= 1);
    assert(slot_value(t, 11) == t.day / 16);
    assert(slot_value(t, 12) == (t.day / 4) % 4);
    assert(slot_value(t, 13) == t.day % 4);
    assert(slot_value(t, 14) == t.month / 4);
    assert(slot_value(t, 15) == t.month % 4);
    assert(slot_value(t, 16) == (year / 16) % 4);
    assert(slot_value(t, 17) == (year / 4) % 4);
    assert(slot_value(t, 18) == year % 4);
    assert(slot_value(t, 19) / 2 == year / 64);
}

/// Within the window of years that the code carries, two timestamps whose
/// frames agree from fragment 3 to fragment 19 agree on the hour, the half
/// of the day, the minute, the weekday, the day, the month and the year.
pub proof fn lemma_frame_determines_fields(a: ZonedTimestamp, b: ZonedTimestamp)
    requires
        a.wf(),
        b.wf(),
        YEAR_BASE <= a.year < YEAR_BASE + 128,
        YEAR_BASE <= b.year < YEAR_BASE + 128,
        forall|slot: nat| 3 <= slot <= 19 ==> slot_value(a, slot) == slot_value(b, slot),
    ensures
        a.hour12 == b.hour12,
        a.pm == b.pm,
        a.minute == b.minute,
        a.weekday == b.weekday,
        a.day == b.day,
        a.month == b.month,
        a.year == b.year,
{
    lemma_time_fields_recovered(a);
    lemma_time_fields_recovered(b);
    lemma_date_fields_recovered(a);
    lemma_date_fields_recovered(b);
    assert(slot_value(a, 3) == slot_value(b, 3));
    assert(slot_value(a, 4) == slot_value(b, 4));
    assert(slot_value(a, 5) == slot_value(b, 5));
    assert(slot_value(a, 6) == slot_value(b, 6));
    assert(slot_value(a, 7) == slot_value(b, 7));
    assert(slot_value(a, 8) == slot_value(b, 8));
    assert(slot_value(a, 9) == slot_value(b, 9));
    assert(slot_value(a, 10) == slot_value(b, 10));
    assert(slot_value(a, 11) == slot_value(b, 11));
    assert(slot_value(a, 12) == slot_value(b, 12));
    assert(slot_value(a, 13) == slot_value(b, 13));
    assert(slot_value(a, 14) == slot_value(b, 14));
    assert(slot_value(a, 15) == slot_value(b, 15));
    assert(slot_value(a, 16) == slot_value(b, 16));
    assert(slot_value(a, 17) == slot_value(b, 17));
    assert(slot_value(a, 18) == slot_value(b, 18));
    assert(slot_value(a, 19) == slot_value(b, 19));
}

} // verus!
