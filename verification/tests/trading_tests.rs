use ax_exchange_sdk::decimal::Decimal;
use ax_exchange_sdk::trading::{
    price_scale_from_tick_size, validate_price_scale, CandleWidth, InstrumentState, OrderState, Side, TimeOfDay,
};

// 20250916T19:19:39.100Z - Arbitrary time
const TIME_1: u64 = 1758050379100000000;

// 20250916T16:29:43.500Z - Arbitrary time
const TIME_2: u64 = 1758040183500000000;

// 20250916T00:00:00.000Z - Exact midnight UTC
const MIDNIGHT_UTC: u64 = 1757980800000000000;

// 20250916T23:59:59.999999999Z - Last nanosecond of the day
const END_OF_DAY: u64 = 1758067199999999999;

// 20250916T12:00:00.000Z - Exact noon
const NOON: u64 = 1758024000000000000;

// 20250916T11:59:59.999999999Z - Last nanosecond before noon
const JUST_BEFORE_NOON: u64 = 1758023999999999999;

// 20250916T15:30:00.000Z - Exact half hour
const HALF_HOUR: u64 = 1758036600000000000;

// 20250916T15:30:05.000Z - Exact 5-second boundary
const FIVE_SEC_BOUNDARY: u64 = 1758036605000000000;

// 20250916T15:30:04.999999999Z - Just before 5-second boundary
const JUST_BEFORE_FIVE_SEC: u64 = 1758036604999999999;

fn dec(s: &str) -> Decimal {
    let d: rust_decimal::Decimal = s.parse().expect("valid decimal");
    Decimal::from_parts(d.mantissa(), d.scale()).expect("decimal in range")
}

#[test]
fn one_second_candle_window() {
    let (start, end) = CandleWidth::OneSecond.to_nanosec_window(TIME_1);
    assert_eq!(start, 1758050379000000000);
    assert_eq!(end, 1758050379999999999);
}

#[test]
fn one_second_exact_boundary() {
    let (start, end) = CandleWidth::OneSecond.to_nanosec_window(NOON);
    assert_eq!(start, 1758024000000000000);
    assert_eq!(end, 1758024000999999999);
}

#[test]
fn one_second_last_nanosecond() {
    let (start, end) = CandleWidth::OneSecond.to_nanosec_window(JUST_BEFORE_NOON);
    assert_eq!(start, 1758023999000000000);
    assert_eq!(end, 1758023999999999999);
}

#[test]
fn five_second_candle_window() {
    let (start, end) = CandleWidth::FiveSecond.to_nanosec_window(TIME_1);
    assert_eq!(start, 1758050375000000000);
    assert_eq!(end, 1758050379999999999);
}

#[test]
fn five_second_exact_boundary() {
    let (start, end) = CandleWidth::FiveSecond.to_nanosec_window(FIVE_SEC_BOUNDARY);
    assert_eq!(start, 1758036605000000000);
    assert_eq!(end, 1758036609999999999);
}

#[test]
fn five_second_just_before_boundary() {
    let (start, end) = CandleWidth::FiveSecond.to_nanosec_window(JUST_BEFORE_FIVE_SEC);
    assert_eq!(start, 1758036600000000000);
    assert_eq!(end, 1758036604999999999);
}

#[test]
fn five_second_at_minute_boundary() {
    let (start, end) = CandleWidth::FiveSecond.to_nanosec_window(HALF_HOUR);
    assert_eq!(start, 1758036600000000000);
    assert_eq!(end, 1758036604999999999);
}

#[test]
fn one_minute_candle_window() {
    let (start, end) = CandleWidth::OneMinute.to_nanosec_window(TIME_1);
    assert_eq!(start, 1758050340000000000);
    assert_eq!(end, 1758050399999999999);
}

#[test]
fn one_minute_exact_boundary() {
    let (start, end) = CandleWidth::OneMinute.to_nanosec_window(HALF_HOUR);
    assert_eq!(start, 1758036600000000000);
    assert_eq!(end, 1758036659999999999);
}

#[test]
fn one_minute_last_nanosecond() {
    let (start, end) = CandleWidth::OneMinute.to_nanosec_window(JUST_BEFORE_NOON);
    assert_eq!(start, 1758023940000000000);
    assert_eq!(end, 1758023999999999999);
}

#[test]
fn fifteen_minute_candle_window() {
    let (start, end) = CandleWidth::FifteenMinute.to_nanosec_window(TIME_2);
    assert_eq!(start, 1758039300000000000);
    assert_eq!(end, 1758040199999999999);
}

#[test]
fn fifteen_minute_at_half_hour() {
    let (start, end) = CandleWidth::FifteenMinute.to_nanosec_window(HALF_HOUR);
    assert_eq!(start, 1758036600000000000);
    assert_eq!(end, 1758037499999999999);
}

#[test]
fn fifteen_minute_at_noon() {
    let (start, end) = CandleWidth::FifteenMinute.to_nanosec_window(NOON);
    assert_eq!(start, 1758024000000000000);
    assert_eq!(end, 1758024899999999999);
}

#[test]
fn fifteen_minute_just_before_noon() {
    let (start, end) = CandleWidth::FifteenMinute.to_nanosec_window(JUST_BEFORE_NOON);
    assert_eq!(start, 1758023100000000000);
    assert_eq!(end, 1758023999999999999);
}

#[test]
fn one_hour_candle_window() {
    let (start, end) = CandleWidth::OneHour.to_nanosec_window(TIME_2);
    assert_eq!(start, 1758038400000000000);
    assert_eq!(end, 1758041999999999999);
}

#[test]
fn one_hour_exact_boundary() {
    let (start, end) = CandleWidth::OneHour.to_nanosec_window(NOON);
    assert_eq!(start, 1758024000000000000);
    assert_eq!(end, 1758027599999999999);
}

#[test]
fn one_hour_last_nanosecond_before() {
    let (start, end) = CandleWidth::OneHour.to_nanosec_window(JUST_BEFORE_NOON);
    assert_eq!(start, 1758020400000000000);
    assert_eq!(end, 1758023999999999999);
}

#[test]
fn one_hour_at_midnight() {
    let (start, end) = CandleWidth::OneHour.to_nanosec_window(MIDNIGHT_UTC);
    assert_eq!(start, 1757980800000000000);
    assert_eq!(end, 1757984399999999999);
}

#[test]
fn one_day_candle_window() {
    let (start, end) = CandleWidth::OneDay.to_nanosec_window(TIME_1);
    assert_eq!(start, 1757980800000000000);
    assert_eq!(end, 1758067199999999999);
}

#[test]
fn one_day_at_midnight() {
    let (start, end) = CandleWidth::OneDay.to_nanosec_window(MIDNIGHT_UTC);
    assert_eq!(start, 1757980800000000000);
    assert_eq!(end, 1758067199999999999);
}

#[test]
fn one_day_end_of_day() {
    let (start, end) = CandleWidth::OneDay.to_nanosec_window(END_OF_DAY);
    assert_eq!(start, 1757980800000000000);
    assert_eq!(end, 1758067199999999999);
}

#[test]
fn one_day_at_noon() {
    let (start, end) = CandleWidth::OneDay.to_nanosec_window(NOON);
    assert_eq!(start, 1757980800000000000);
    assert_eq!(end, 1758067199999999999);
}

#[test]
fn boundaries_are_inclusive_and_continuous() {
    let time = NOON;

    let (_, end1) = CandleWidth::OneSecond.to_nanosec_window(time);
    let (start2, _) = CandleWidth::OneSecond.to_nanosec_window(end1 + 1);
    assert_eq!(end1 + 1, start2);

    let (_, end1) = CandleWidth::OneMinute.to_nanosec_window(time);
    let (start2, _) = CandleWidth::OneMinute.to_nanosec_window(end1 + 1);
    assert_eq!(end1 + 1, start2);
}

#[test]
fn window_widths_are_correct() {
    let time = NOON;

    let (start, end) = CandleWidth::OneSecond.to_nanosec_window(time);
    assert_eq!(end - start + 1, 1_000_000_000);

    let (start, end) = CandleWidth::FiveSecond.to_nanosec_window(time);
    assert_eq!(end - start + 1, 5_000_000_000);

    let (start, end) = CandleWidth::OneMinute.to_nanosec_window(time);
    assert_eq!(end - start + 1, 60_000_000_000);

    let (start, end) = CandleWidth::FifteenMinute.to_nanosec_window(time);
    assert_eq!(end - start + 1, 900_000_000_000);

    let (start, end) = CandleWidth::OneHour.to_nanosec_window(time);
    assert_eq!(end - start + 1, 3_600_000_000_000);

    let (start, end) = CandleWidth::OneDay.to_nanosec_window(time);
    assert_eq!(end - start + 1, 86_400_000_000_000);
}

#[test]
fn price_scale_from_tick_size_uses_multiplier_semantics() {
    assert_eq!(price_scale_from_tick_size(dec("1")).unwrap(), 1);
    assert_eq!(price_scale_from_tick_size(dec("0.001")).unwrap(), 1000);
    assert_eq!(price_scale_from_tick_size(dec("0.000001")).unwrap(), 1_000_000);

    assert_eq!(price_scale_from_tick_size(dec("5")).unwrap(), 1);
    assert_eq!(price_scale_from_tick_size(dec("10")).unwrap(), 1);

    assert_eq!(price_scale_from_tick_size(dec("0.5")).unwrap(), 2);
    assert_eq!(price_scale_from_tick_size(dec("0.25")).unwrap(), 4);
}

#[test]
fn price_scale_validation_rejects_non_positive_values() {
    assert!(price_scale_from_tick_size(dec("0")).is_err());
    assert!(price_scale_from_tick_size(dec("-0.01")).is_err());
    assert!(validate_price_scale("BAD-SCALE", dec("0.01"), 0).is_err());
    assert!(validate_price_scale("BAD-TICK", dec("0"), 100).is_err());
}

#[test]
fn price_scale_validation_rejects_mismatched_scale() {
    validate_price_scale("EURUSD-PERP", dec("0.0001"), 10000).unwrap();
    validate_price_scale("QQQ-PERP", dec("0.01"), 100).unwrap();
    assert!(validate_price_scale("EURUSD-PERP", dec("0.0001"), 5).is_err());
}

#[test]
fn price_scale_validation_diverges_for_fractional_ticks() {
    validate_price_scale("FRACTIONAL-PERP", dec("0.05"), 20).unwrap();
    assert!(validate_price_scale("FRACTIONAL-PERP", dec("0.05"), 100).is_err());
}

#[test]
fn price_scale_of_trailing_zero_tick_is_reduced() {
    // 0.10 reads as 0.1: a scale of 10, not 100.
    assert_eq!(price_scale_from_tick_size(dec("0.10")).unwrap(), 10);
    assert_eq!(price_scale_from_tick_size(dec("0.0125")).unwrap(), 80);
}

#[test]
fn price_scale_error_messages() {
    let e = price_scale_from_tick_size(dec("0")).unwrap_err();
    assert_eq!(e.message(), "tick_size must be positive, got 0");
    let e = price_scale_from_tick_size(dec("-0.010")).unwrap_err();
    assert_eq!(e.message(), "tick_size must be positive, got -0.010");
    let e = validate_price_scale("BAD-SCALE", dec("0.01"), 0).unwrap_err();
    assert_eq!(e.message(), "instrument BAD-SCALE has non-positive price_scale 0");
    let e = validate_price_scale("EURUSD-PERP", dec("0.0001"), 5).unwrap_err();
    assert_eq!(e.message(), "instrument EURUSD-PERP has price_scale 5, expected 10000 for tick_size 0.0001");
    let tiny = Decimal::from_parts(1, 20).unwrap();
    let e = price_scale_from_tick_size(tiny).unwrap_err();
    assert_eq!(e.message(), "price scale 100000000000000000000 for tick_size 0.00000000000000000001 overflows i64");
}

#[test]
fn side_codes_round_trip() {
    assert_eq!(Side::Buy.as_char(), "B");
    assert_eq!(Side::Sell.as_char(), "S");
    assert_eq!(Side::from_char("B").unwrap(), Side::Buy);
    assert_eq!(Side::from_char("S").unwrap(), Side::Sell);
    assert!(Side::from_char("X").is_err());
    assert_eq!(Side::from_char("X").unwrap_err().message(), "unknown side: X");
    assert_eq!(Side::Buy.flip(), Side::Sell);
    assert_eq!(Side::Sell.flip().flip(), Side::Sell);
    assert_eq!(Side::Buy.position_sign(), 1);
    assert_eq!(Side::Sell.position_sign(), -1);
}

#[test]
fn order_state_codes_round_trip() {
    let all = [
        OrderState::Pending,
        OrderState::Accepted,
        OrderState::PartiallyFilled,
        OrderState::Filled,
        OrderState::Canceled,
        OrderState::Rejected,
        OrderState::Expired,
        OrderState::Replaced,
        OrderState::DoneForDay,
        OrderState::Unknown,
    ];
    for s in all {
        assert_eq!(OrderState::from_char(s.as_char()).unwrap(), s);
        assert_eq!(OrderState::from_name(s.as_str()).unwrap(), s);
    }
    assert_eq!(OrderState::PartiallyFilled.as_str(), "PARTIALLY_FILLED");
    assert!(OrderState::from_char("Q").is_err());
}

#[test]
fn order_life_cycle_rules() {
    assert!(OrderState::Pending.can_transition_to(&OrderState::Accepted));
    assert!(OrderState::Accepted.can_transition_to(&OrderState::Filled));
    assert!(!OrderState::Filled.can_transition_to(&OrderState::Accepted));
    assert!(OrderState::Filled.is_terminal());
    assert!(!OrderState::Accepted.is_terminal());
    assert!(OrderState::Accepted.is_open());
    assert!(OrderState::Accepted.can_be_canceled());
    assert!(!OrderState::Canceled.can_be_canceled());
}

#[test]
fn candle_width_text_round_trip() {
    for w in [
        CandleWidth::OneSecond,
        CandleWidth::FiveSecond,
        CandleWidth::OneMinute,
        CandleWidth::FiveMinute,
        CandleWidth::FifteenMinute,
        CandleWidth::OneHour,
        CandleWidth::OneDay,
    ] {
        assert_eq!(CandleWidth::from_str(w.as_str()).unwrap(), w);
    }
    let e = CandleWidth::from_str("2m").unwrap_err();
    assert_eq!(e.message(), "unrecognized candle width: '2m'");
    assert_eq!(CandleWidth::FiveMinute.nanos(), 300_000_000_000);
}

#[test]
fn time_of_day_validation() {
    assert!(TimeOfDay { hours: 23, minutes: 59, seconds: 59 }.validate().is_ok());
    let e = TimeOfDay { hours: 24, minutes: 0, seconds: 5 }.validate().unwrap_err();
    assert_eq!(e.message(), "invalid time_of_day: 24:00:05");
}

#[test]
fn decimals_print_as_rust_decimal_does() {
    for text in ["0", "-0.050", "123.4500", "0.0001", "-7", "79228162514264337593543950335", "0.0000000000000000000000000001"] {
        let d: rust_decimal::Decimal = text.parse().unwrap();
        let ours = Decimal::from_parts(d.mantissa(), d.scale()).unwrap();
        assert_eq!(ours.to_string(), d.to_string());
    }
    assert_eq!(Decimal::new(-50, 3).to_string(), "-0.050");
    assert!(dec("1.50").eq_value(&dec("1.5")));
    assert!(dec("1.49").lt_value(&dec("1.5")));
    assert!(!dec("2").lt_value(&dec("1.999")));
}

#[test]
fn test_instrument_state_serialization() {
    assert_eq!(InstrumentState::ClosedFrozen.as_str(), "CLOSED_FROZEN");
    assert_eq!(InstrumentState::PreOpen.as_str(), "PRE_OPEN");
    assert_eq!(InstrumentState::Open.as_str(), "OPEN");
    assert_eq!(InstrumentState::Closed.as_str(), "CLOSED");
    assert_eq!(InstrumentState::Delisted.as_str(), "DELISTED");
    assert_eq!(InstrumentState::Unknown.as_str(), "UNKNOWN");
}

#[test]
fn computed_price_scale_validates() {
    for t in ["0.05", "0.25", "0.001", "1", "2.5"] {
        let tick = dec(t);
        let scale = price_scale_from_tick_size(tick).unwrap();
        assert!(validate_price_scale("TEST", tick, scale).is_ok(), "tick {t}");
    }
}

#[test]
fn power_of_ten_ticks_use_decimal_scale() {
    assert_eq!(price_scale_from_tick_size(dec("1")).unwrap(), 1);
    assert_eq!(price_scale_from_tick_size(dec("0.1")).unwrap(), 10);
    assert_eq!(price_scale_from_tick_size(dec("0.0001")).unwrap(), 10_000);
    assert_eq!(price_scale_from_tick_size(dec("0.000000001")).unwrap(), 1_000_000_000);
}
