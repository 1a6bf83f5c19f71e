//! Business types for trading: sides, order states, reject reasons, candle
//! widths, instrument states and the tick-size arithmetic of instruments.
use vstd::prelude::*;
use crate::text::{concat_str, decimal_text, push_char, push_decimal, push_decimal_u128, push_signed_decimal, signed_decimal_text, str_eq};
use crate::types::decimal::{Decimal, decimal_display, normalize_parts, pow10, strip_trailing_zeros, lemma_strip_bounds, MAX_SCALE};
use crate::types::days_of_week::DaysOfWeek;
use crate::types::funding_rate_schedule::FundingRateSchedule;
use crate::types::order_id::{ClientOrderId, OrderId, is_liquidation_id};
use crate::types::time::UtcTime;

verus! {

/// Why a trading value could not be parsed or validated.
#[derive(Debug, Clone)]
pub enum TradingError {
    /// A side other than "B" or "S".
    UnknownSide(String),
    /// An order state code that is not one of the ten.
    UnknownOrderState(String),
    /// A candle width text that is not one of the seven.
    UnrecognizedCandleWidth(String),
    /// An instrument category name that is not one of the seven.
    UnknownCategory(String),
    /// A time of day outside 00:00:00 .. 23:59:59.
    InvalidTimeOfDay { hours: u8, minutes: u8, seconds: u8 },
    /// A tick size of zero or less.
    NonPositiveTickSize { tick_size: Decimal },
    /// A price scale, for the tick size in lowest terms, that does not fit
    /// in an `i64`.
    PriceScaleOverflow { price_scale: u128, tick_size: Decimal },
    /// An instrument whose price scale is zero or less.
    NonPositivePriceScale { symbol: String, price_scale: i64 },
    /// An instrument whose price scale differs from the one its tick size implies.
    PriceScaleMismatch { symbol: String, price_scale: i64, expected: i64, tick_size: Decimal },
}

/// `n` with at least two digits.
pub open spec fn two_digit_text(n: u8) -> Seq<char> {
    if n < 10 {
        seq!['0'] + decimal_text(n as nat)
    } else {
        decimal_text(n as nat)
    }
}

/// The text of a decimal.
pub open spec fn decimal_text_of(d: Decimal) -> Seq<char> {
    decimal_display(d.spec_mantissa(), d.spec_scale())
}

/// The human-readable text of a trading error.
pub open spec fn trading_error_text(e: TradingError) -> Seq<char> {
    match e {
        TradingError::UnknownSide(s) => "unknown side: "@ + s@,
        TradingError::UnknownOrderState(s) => "unknown order state: "@ + s@,
        TradingError::UnrecognizedCandleWidth(s) => "unrecognized candle width: '"@ + s@ + "'"@,
        TradingError::UnknownCategory(s) => "unknown instrument category: "@ + s@,
        TradingError::InvalidTimeOfDay { hours, minutes, seconds } => "invalid time_of_day: "@ + two_digit_text(hours)
            + ":"@ + two_digit_text(minutes) + ":"@ + two_digit_text(seconds),
        TradingError::NonPositiveTickSize { tick_size } => "tick_size must be positive, got "@ + decimal_text_of(
            tick_size,
        ),
        TradingError::PriceScaleOverflow { price_scale, tick_size } => "price scale "@ + decimal_text(
            price_scale as nat,
        ) + " for tick_size "@ + decimal_text_of(tick_size) + " overflows i64"@,
        TradingError::NonPositivePriceScale { symbol, price_scale } => "instrument "@ + symbol@
            + " has non-positive price_scale "@ + signed_decimal_text(price_scale as int),
        TradingError::PriceScaleMismatch { symbol, price_scale, expected, tick_size } => "instrument "@ + symbol@
            + " has price_scale "@ + signed_decimal_text(price_scale as int) + ", expected "@ + signed_decimal_text(
            expected as int,
        ) + " for tick_size "@ + decimal_text_of(tick_size),
    }
}

/// Appends `n` with at least two digits.
fn push_two_digits(s: &mut String, n: u8)
    ensures
        final(s)@ == old(s)@ + two_digit_text(n),
{
    if n < 10 {
        push_char(s, '0');
    }
    push_decimal(s, n as u64);
}

impl TradingError {
    /// The human-readable text of the error.
    pub fn message(&self) -> (r: String)
        ensures
            r@ == trading_error_text(*self),
    {
        match self {
            TradingError::UnknownSide(s) => concat_str("unknown side: ", s.as_str()),
            TradingError::UnknownOrderState(s) => concat_str("unknown order state: ", s.as_str()),
            TradingError::UnrecognizedCandleWidth(s) => {
                let mut m = concat_str("unrecognized candle width: '", s.as_str());
                m.append("'");
                m
            },
            TradingError::UnknownCategory(s) => concat_str("unknown instrument category: ", s.as_str()),
            TradingError::InvalidTimeOfDay { hours, minutes, seconds } => {
                let mut m = String::from_str("invalid time_of_day: ");
                push_two_digits(&mut m, *hours);
                m.append(":");
                push_two_digits(&mut m, *minutes);
                m.append(":");
                push_two_digits(&mut m, *seconds);
                m
            },
            TradingError::NonPositiveTickSize { tick_size } => {
                let t = tick_size.to_string();
                concat_str("tick_size must be positive, got ", t.as_str())
            },
            TradingError::PriceScaleOverflow { price_scale, tick_size } => {
                let mut m = String::from_str("price scale ");
                push_decimal_u128(&mut m, *price_scale);
                m.append(" for tick_size ");
                let t = tick_size.to_string();
                m.append(t.as_str());
                m.append(" overflows i64");
                m
            },
            TradingError::NonPositivePriceScale { symbol, price_scale } => {
                let mut m = concat_str("instrument ", symbol.as_str());
                m.append(" has non-positive price_scale ");
                push_signed_decimal(&mut m, *price_scale);
                m
            },
            TradingError::PriceScaleMismatch { symbol, price_scale, expected, tick_size } => {
                let mut m = concat_str("instrument ", symbol.as_str());
                m.append(" has price_scale ");
                push_signed_decimal(&mut m, *price_scale);
                m.append(", expected ");
                push_signed_decimal(&mut m, *expected);
                m.append(" for tick_size ");
                let t = tick_size.to_string();
                m.append(t.as_str());
                m
            },
        }
    }
}

// ---------------------------------------------------------------------------
// Side
// ---------------------------------------------------------------------------

/// Side of an order or trade.
#[derive(Debug, Clone, Copy, PartialEq, Eq, Structural)]
pub enum Side {
    Buy,
    Sell,
}

/// The one-letter code of a side: "B" or "S".
pub open spec fn side_code(s: Side) -> Seq<char> {
    match s {
        Side::Buy => "B"@,
        Side::Sell => "S"@,
    }
}

/// The side whose code is `c`, if any.
pub open spec fn side_from_code(c: Seq<char>) -> Option<Side> {
    if c == "B"@ {
        Some(Side::Buy)
    } else if c == "S"@ {
        Some(Side::Sell)
    } else {
        None
    }
}

impl Side {
    /// The one-letter code of the side.
    pub fn as_char(&self) -> (r: &'static str)
        ensures
            r@ == side_code(*self),
    {
        match self {
            Side::Buy => "B",
            Side::Sell => "S",
        }
    }

    /// The side whose one-letter code is `s`.
    pub fn from_char(s: &str) -> (r: Result<Side, TradingError>)
        ensures
            side_from_code(s@) matches Some(x) ==> r == Ok::<Side, TradingError>(x),
            side_from_code(s@) is None ==> (r matches Err(TradingError::UnknownSide(t)) && t@ == s@),
    {
        if str_eq(s, "B") {
            Ok(Side::Buy)
        } else if str_eq(s, "S") {
            Ok(Side::Sell)
        } else {
            Err(TradingError::UnknownSide(String::from_str(s)))
        }
    }

    /// +1 for a buy, -1 for a sell.
    pub fn position_sign(&self) -> (r: i8)
        ensures
            r == (match *self {
                Side::Buy => 1i8,
                Side::Sell => -1i8,
            }),
    {
        match self {
            Side::Buy => 1,
            Side::Sell => -1,
        }
    }

    /// The opposite side.
    pub fn flip(&self) -> (r: Side)
        ensures
            r == (match *self {
                Side::Buy => Side::Sell,
                Side::Sell => Side::Buy,
            }),
    {
        match self {
            Side::Buy => Side::Sell,
            Side::Sell => Side::Buy,
        }
    }
}

/// Reading a side's code gives the side back, and flipping twice is the identity,
/// and flipping negates the position sign.
pub proof fn lemma_side_laws(s: Side)
    ensures
        side_from_code(side_code(s)) == Some(s),
        (match s {
            Side::Buy => Side::Sell,
            Side::Sell => Side::Buy,
        }) != s,
{
    reveal_strlit("B");
    reveal_strlit("S");
    assert("B"@[0] == 'B' && "S"@[0] == 'S');
}

// ---------------------------------------------------------------------------
// OrderState
// ---------------------------------------------------------------------------

/// The life-cycle state of an order.
#[derive(Debug, Clone, Copy, PartialEq, Eq, Structural)]
pub enum OrderState {
    Pending,
    Accepted,
    PartiallyFilled,
    Filled,
    Canceled,
    Rejected,
    Expired,
    Replaced,
    DoneForDay,
    Unknown,
}

/// The wire name of an order state, e.g. "PARTIALLY_FILLED".
pub open spec fn order_state_name(s: OrderState) -> Seq<char> {
    match s {
        OrderState::Pending => "PENDING"@,
        OrderState::Accepted => "ACCEPTED"@,
        OrderState::PartiallyFilled => "PARTIALLY_FILLED"@,
        OrderState::Filled => "FILLED"@,
        OrderState::Canceled => "CANCELED"@,
        OrderState::Rejected => "REJECTED"@,
        OrderState::Expired => "EXPIRED"@,
        OrderState::Replaced => "REPLACED"@,
        OrderState::DoneForDay => "DONE_FOR_DAY"@,
        OrderState::Unknown => "UNKNOWN"@,
    }
}

/// The single-character code of an order state.
pub open spec fn order_state_code(s: OrderState) -> Seq<char> {
    match s {
        OrderState::Pending => "P"@,
        OrderState::Accepted => "A"@,
        OrderState::PartiallyFilled => "D"@,
        OrderState::Filled => "F"@,
        OrderState::Canceled => "X"@,
        OrderState::Rejected => "R"@,
        OrderState::Expired => "E"@,
        OrderState::Replaced => "K"@,
        OrderState::DoneForDay => "Z"@,
        OrderState::Unknown => "?"@,
    }
}

/// The order state whose single-character code is `c`, if any.
pub open spec fn order_state_from_code(c: Seq<char>) -> Option<OrderState> {
    if c == "P"@ {
        Some(OrderState::Pending)
    } else if c == "A"@ {
        Some(OrderState::Accepted)
    } else if c == "D"@ {
        Some(OrderState::PartiallyFilled)
    } else if c == "F"@ {
        Some(OrderState::Filled)
    } else if c == "X"@ {
        Some(OrderState::Canceled)
    } else if c == "R"@ {
        Some(OrderState::Rejected)
    } else if c == "E"@ {
        Some(OrderState::Expired)
    } else if c == "K"@ {
        Some(OrderState::Replaced)
    } else if c == "Z"@ {
        Some(OrderState::DoneForDay)
    } else if c == "?"@ {
        Some(OrderState::Unknown)
    } else {
        None
    }
}

/// The order state whose wire name is `n`, if any.
pub open spec fn order_state_from_name(n: Seq<char>) -> Option<OrderState> {
    if n == "PENDING"@ {
        Some(OrderState::Pending)
    } else if n == "ACCEPTED"@ {
        Some(OrderState::Accepted)
    } else if n == "PARTIALLY_FILLED"@ {
        Some(OrderState::PartiallyFilled)
    } else if n == "FILLED"@ {
        Some(OrderState::Filled)
    } else if n == "CANCELED"@ {
        Some(OrderState::Canceled)
    } else if n == "REJECTED"@ {
        Some(OrderState::Rejected)
    } else if n == "EXPIRED"@ {
        Some(OrderState::Expired)
    } else if n == "REPLACED"@ {
        Some(OrderState::Replaced)
    } else if n == "DONE_FOR_DAY"@ {
        Some(OrderState::DoneForDay)
    } else if n == "UNKNOWN"@ {
        Some(OrderState::Unknown)
    } else {
        None
    }
}

/// Whether an order in state `s` is live on the book.
pub open spec fn spec_is_open(s: OrderState) -> bool {
    s == OrderState::Accepted || s == OrderState::PartiallyFilled
}

/// Whether `s` is a final state.
pub open spec fn spec_is_terminal(s: OrderState) -> bool {
    ||| s == OrderState::Canceled
    ||| s == OrderState::Filled
    ||| s == OrderState::Rejected
    ||| s == OrderState::Replaced
    ||| s == OrderState::DoneForDay
    ||| s == OrderState::Expired
}

/// The transitions the order life cycle allows.
pub open spec fn spec_can_transition(from: OrderState, to: OrderState) -> bool {
    match from {
        OrderState::Pending => {
            ||| to == OrderState::Pending
            ||| to == OrderState::Accepted
            ||| to == OrderState::Rejected
            ||| to == OrderState::Canceled
            ||| to == OrderState::Expired
            ||| to == OrderState::Replaced
            ||| to == OrderState::DoneForDay
        },
        OrderState::Accepted => {
            ||| to == OrderState::Accepted
            ||| to == OrderState::PartiallyFilled
            ||| to == OrderState::Filled
            ||| to == OrderState::Canceled
            ||| to == OrderState::Expired
            ||| to == OrderState::Replaced
            ||| to == OrderState::DoneForDay
        },
        OrderState::PartiallyFilled => {
            ||| to == OrderState::PartiallyFilled
            ||| to == OrderState::Filled
            ||| to == OrderState::Canceled
            ||| to == OrderState::Expired
            ||| to == OrderState::Replaced
            ||| to == OrderState::DoneForDay
        },
        _ => false,
    }
}

/// How far along its life cycle a state lies.
pub open spec fn life_cycle_rank(s: OrderState) -> int {
    match s {
        OrderState::Pending => 0,
        OrderState::Accepted => 1,
        OrderState::PartiallyFilled => 2,
        OrderState::Unknown => 0,
        _ => 3,
    }
}

impl OrderState {
    /// The wire name of the state.
    pub fn as_str(&self) -> (r: &'static str)
        ensures
            r@ == order_state_name(*self),
    {
        match self {
            OrderState::Pending => "PENDING",
            OrderState::Accepted => "ACCEPTED",
            OrderState::PartiallyFilled => "PARTIALLY_FILLED",
            OrderState::Filled => "FILLED",
            OrderState::Canceled => "CANCELED",
            OrderState::Rejected => "REJECTED",
            OrderState::Expired => "EXPIRED",
            OrderState::Replaced => "REPLACED",
            OrderState::DoneForDay => "DONE_FOR_DAY",
            OrderState::Unknown => "UNKNOWN",
        }
    }

    /// The state whose wire name is `s` (the `FromStr` of the type).
    pub fn from_name(s: &str) -> (r: Result<OrderState, TradingError>)
        ensures
            order_state_from_name(s@) matches Some(x) ==> r == Ok::<OrderState, TradingError>(x),
            order_state_from_name(s@) is None ==> (r matches Err(TradingError::UnknownOrderState(t)) && t@ == s@),
    {
        if str_eq(s, "PENDING") {
            Ok(OrderState::Pending)
        } else if str_eq(s, "ACCEPTED") {
            Ok(OrderState::Accepted)
        } else if str_eq(s, "PARTIALLY_FILLED") {
            Ok(OrderState::PartiallyFilled)
        } else if str_eq(s, "FILLED") {
            Ok(OrderState::Filled)
        } else if str_eq(s, "CANCELED") {
            Ok(OrderState::Canceled)
        } else if str_eq(s, "REJECTED") {
            Ok(OrderState::Rejected)
        } else if str_eq(s, "EXPIRED") {
            Ok(OrderState::Expired)
        } else if str_eq(s, "REPLACED") {
            Ok(OrderState::Replaced)
        } else if str_eq(s, "DONE_FOR_DAY") {
            Ok(OrderState::DoneForDay)
        } else if str_eq(s, "UNKNOWN") {
            Ok(OrderState::Unknown)
        } else {
            Err(TradingError::UnknownOrderState(String::from_str(s)))
        }
    }

    /// Whether the order is live on the book.
    pub fn is_open(&self) -> (r: bool)
        ensures
            r == spec_is_open(*self),
    {
        match self {
            OrderState::Accepted | OrderState::PartiallyFilled => true,
            _ => false,
        }
    }

    /// Whether the state is final.
    pub fn is_terminal(&self) -> (r: bool)
        ensures
            r == spec_is_terminal(*self),
    {
        match self {
            OrderState::Canceled
            | OrderState::Filled
            | OrderState::Rejected
            | OrderState::Replaced
            | OrderState::DoneForDay
            | OrderState::Expired => true,
            _ => false,
        }
    }

    /// Whether an order may move from this state to `next_state`.
    pub fn can_transition_to(&self, next_state: &OrderState) -> (r: bool)
        ensures
            r == spec_can_transition(*self, *next_state),
    {
        match self {
            OrderState::Pending => match next_state {
                OrderState::Pending
                | OrderState::Accepted
                | OrderState::Rejected
                | OrderState::Canceled
                | OrderState::Expired
                | OrderState::Replaced
                | OrderState::DoneForDay => true,
                _ => false,
            },
            OrderState::Accepted => match next_state {
                OrderState::Accepted
                | OrderState::PartiallyFilled
                | OrderState::Filled
                | OrderState::Canceled
                | OrderState::Expired
                | OrderState::Replaced
                | OrderState::DoneForDay => true,
                _ => false,
            },
            OrderState::PartiallyFilled => match next_state {
                OrderState::PartiallyFilled
                | OrderState::Filled
                | OrderState::Canceled
                | OrderState::Expired
                | OrderState::Replaced
                | OrderState::DoneForDay => true,
                _ => false,
            },
            _ => false,
        }
    }

    /// Whether an order in this state can be canceled.
    pub fn can_be_canceled(&self) -> (r: bool)
        ensures
            r == (*self == OrderState::Pending || spec_is_open(*self)),
    {
        match self {
            OrderState::Pending | OrderState::Accepted | OrderState::PartiallyFilled => true,
            _ => false,
        }
    }

    /// Whether an order in this state can be replaced.
    pub fn can_be_replaced(&self) -> (r: bool)
        ensures
            r == spec_is_open(*self),
    {
        match self {
            OrderState::Accepted | OrderState::PartiallyFilled => true,
            _ => false,
        }
    }

    /// The single-character code of the state.
    pub fn as_char(&self) -> (r: &'static str)
        ensures
            r@ == order_state_code(*self),
    {
        match self {
            OrderState::Pending => "P",
            OrderState::Accepted => "A",
            OrderState::PartiallyFilled => "D",
            OrderState::Filled => "F",
            OrderState::Canceled => "X",
            OrderState::Rejected => "R",
            OrderState::Expired => "E",
            OrderState::Replaced => "K",
            OrderState::DoneForDay => "Z",
            OrderState::Unknown => "?",
        }
    }

    /// The state whose single-character code is `s`.
    pub fn from_char(s: &str) -> (r: Result<OrderState, TradingError>)
        ensures
            order_state_from_code(s@) matches Some(x) ==> r == Ok::<OrderState, TradingError>(x),
            order_state_from_code(s@) is None ==> (r matches Err(TradingError::UnknownOrderState(t)) && t@ == s@),
    {
        if str_eq(s, "P") {
            Ok(OrderState::Pending)
        } else if str_eq(s, "A") {
            Ok(OrderState::Accepted)
        } else if str_eq(s, "D") {
            Ok(OrderState::PartiallyFilled)
        } else if str_eq(s, "F") {
            Ok(OrderState::Filled)
        } else if str_eq(s, "X") {
            Ok(OrderState::Canceled)
        } else if str_eq(s, "R") {
            Ok(OrderState::Rejected)
        } else if str_eq(s, "E") {
            Ok(OrderState::Expired)
        } else if str_eq(s, "K") {
            Ok(OrderState::Replaced)
        } else if str_eq(s, "Z") {
            Ok(OrderState::DoneForDay)
        } else if str_eq(s, "?") {
            Ok(OrderState::Unknown)
        } else {
            Err(TradingError::UnknownOrderState(String::from_str(s)))
        }
    }
}

/// Reading back the single-character code of a state gives the state.
pub proof fn lemma_order_state_code_round_trip(s: OrderState)
    ensures
        order_state_from_code(order_state_code(s)) == Some(s),
{
    reveal_strlit("P");
    assert("P"@[0] == 'P');
    reveal_strlit("A");
    assert("A"@[0] == 'A');
    reveal_strlit("D");
    assert("D"@[0] == 'D');
    reveal_strlit("F");
    assert("F"@[0] == 'F');
    reveal_strlit("X");
    assert("X"@[0] == 'X');
    reveal_strlit("R");
    assert("R"@[0] == 'R');
    reveal_strlit("E");
    assert("E"@[0] == 'E');
    reveal_strlit("K");
    assert("K"@[0] == 'K');
    reveal_strlit("Z");
    assert("Z"@[0] == 'Z');
    reveal_strlit("?");
    assert("?"@[0] == '?');
}

/// Reading back the wire name of a state gives the state.
pub proof fn lemma_order_state_name_round_trip(s: OrderState)
    ensures
        order_state_from_name(order_state_name(s)) == Some(s),
{
    reveal_strlit("PENDING");
    assert("PENDING"@.len() == 7 && "PENDING"@[0] == 'P' && "PENDING"@[2] == 'N');
    reveal_strlit("ACCEPTED");
    assert("ACCEPTED"@.len() == 8 && "ACCEPTED"@[0] == 'A' && "ACCEPTED"@[2] == 'C');
    reveal_strlit("PARTIALLY_FILLED");
    assert("PARTIALLY_FILLED"@.len() == 16 && "PARTIALLY_FILLED"@[0] == 'P' && "PARTIALLY_FILLED"@[2] == 'R');
    reveal_strlit("FILLED");
    assert("FILLED"@.len() == 6 && "FILLED"@[0] == 'F' && "FILLED"@[2] == 'L');
    reveal_strlit("CANCELED");
    assert("CANCELED"@.len() == 8 && "CANCELED"@[0] == 'C' && "CANCELED"@[2] == 'N');
    reveal_strlit("REJECTED");
    assert("REJECTED"@.len() == 8 && "REJECTED"@[0] == 'R' && "REJECTED"@[2] == 'J');
    reveal_strlit("EXPIRED");
    assert("EXPIRED"@.len() == 7 && "EXPIRED"@[0] == 'E' && "EXPIRED"@[2] == 'P');
    reveal_strlit("REPLACED");
    assert("REPLACED"@.len() == 8 && "REPLACED"@[0] == 'R' && "REPLACED"@[2] == 'P');
    reveal_strlit("DONE_FOR_DAY");
    assert("DONE_FOR_DAY"@.len() == 12 && "DONE_FOR_DAY"@[0] == 'D' && "DONE_FOR_DAY"@[2] == 'N');
    reveal_strlit("UNKNOWN");
    assert("UNKNOWN"@.len() == 7 && "UNKNOWN"@[0] == 'U' && "UNKNOWN"@[2] == 'K');
}

/// The order life cycle: no state moves out of a final state or out of
/// `Unknown`, no transition goes backwards, a live order is neither pending nor
/// final, and every state that can be replaced can be canceled.
pub proof fn lemma_order_life_cycle(from: OrderState, to: OrderState)
    ensures
        spec_is_terminal(from) ==> !spec_can_transition(from, to),
        from == OrderState::Unknown ==> !spec_can_transition(from, to),
        spec_can_transition(from, to) ==> life_cycle_rank(from) <= life_cycle_rank(to),
        spec_can_transition(from, to) ==> to != OrderState::Unknown,
        spec_is_open(from) ==> !spec_is_terminal(from),
        spec_is_terminal(from) ==> !(from == OrderState::Pending || spec_is_open(from)),
        !spec_is_terminal(from) && from != OrderState::Unknown ==> spec_can_transition(from, from),
        !spec_is_terminal(from) && from != OrderState::Unknown ==> spec_can_transition(from, OrderState::Canceled),
{
}

/// The order life cycle's moves, stated by what each state may become: an
/// order moves only out of `Pending` or a live state, never to `Unknown` nor
/// back to an earlier stage; only a pending order can be rejected; only a
/// live order can fill or partly fill. In particular every live order can be
/// filled, and every pending one accepted.
pub proof fn lemma_order_transitions(from: OrderState, to: OrderState)
    ensures
        spec_can_transition(from, to) <==> (
            (from == OrderState::Pending || spec_is_open(from))
            && to != OrderState::Unknown
            && life_cycle_rank(from) <= life_cycle_rank(to)
            && (to == OrderState::Rejected ==> from == OrderState::Pending)
            && ((to == OrderState::Filled || to == OrderState::PartiallyFilled) ==> spec_is_open(from))
        ),
        spec_is_open(from) ==> spec_can_transition(from, OrderState::Filled),
        spec_is_open(from) ==> spec_can_transition(from, OrderState::PartiallyFilled),
        from == OrderState::Pending ==> spec_can_transition(from, OrderState::Accepted),
{
}

// ---------------------------------------------------------------------------
// OrderRejectReason
// ---------------------------------------------------------------------------

/// Why the exchange rejected an order.
#[derive(Debug, Clone, Copy, PartialEq, Eq, Structural)]
pub enum OrderRejectReason {
    CloseOnly,
    InsufficientMargin,
    MaxOpenOrdersExceeded,
    UnknownSymbol,
    ExchangeClosed,
    IncorrectQuantity,
    InvalidPriceIncrement,
    IncorrectOrderType,
    PriceOutOfBounds,
    NoLiquidity,
    InsufficientCreditLimit,
    OriginalOrderTerminated,
    DuplicateClientOrderId,
    Unknown,
}

/// The human-readable description of a reject reason.
pub open spec fn reject_message(r: OrderRejectReason) -> Seq<char> {
    match r {
        OrderRejectReason::CloseOnly => "account is in close-only mode"@,
        OrderRejectReason::InsufficientMargin => "insufficient margin for order"@,
        OrderRejectReason::MaxOpenOrdersExceeded => "too many open orders on this account"@,
        OrderRejectReason::UnknownSymbol => "symbol not found"@,
        OrderRejectReason::ExchangeClosed => "exchange is closed"@,
        OrderRejectReason::IncorrectQuantity => "order quantity is invalid"@,
        OrderRejectReason::InvalidPriceIncrement => "price uses more precision than the minimum tick size"@,
        OrderRejectReason::IncorrectOrderType => "order type is not allowed for this instrument"@,
        OrderRejectReason::PriceOutOfBounds => "price is outside the allowed band"@,
        OrderRejectReason::NoLiquidity => "no liquidity available to fill this order"@,
        OrderRejectReason::InsufficientCreditLimit => "insufficient buying power"@,
        OrderRejectReason::OriginalOrderTerminated => "original order is no longer active"@,
        OrderRejectReason::DuplicateClientOrderId => "duplicate client order ID"@,
        OrderRejectReason::Unknown => "order rejected"@,
    }
}

impl OrderRejectReason {
    /// Human-readable description of the reject reason.
    pub fn message(&self) -> (r: &'static str)
        ensures
            r@ == reject_message(*self),
    {
        match self {
            OrderRejectReason::CloseOnly => "account is in close-only mode",
            OrderRejectReason::InsufficientMargin => "insufficient margin for order",
            OrderRejectReason::MaxOpenOrdersExceeded => "too many open orders on this account",
            OrderRejectReason::UnknownSymbol => "symbol not found",
            OrderRejectReason::ExchangeClosed => "exchange is closed",
            OrderRejectReason::IncorrectQuantity => "order quantity is invalid",
            OrderRejectReason::InvalidPriceIncrement => "price uses more precision than the minimum tick size",
            OrderRejectReason::IncorrectOrderType => "order type is not allowed for this instrument",
            OrderRejectReason::PriceOutOfBounds => "price is outside the allowed band",
            OrderRejectReason::NoLiquidity => "no liquidity available to fill this order",
            OrderRejectReason::InsufficientCreditLimit => "insufficient buying power",
            OrderRejectReason::OriginalOrderTerminated => "original order is no longer active",
            OrderRejectReason::DuplicateClientOrderId => "duplicate client order ID",
            OrderRejectReason::Unknown => "order rejected",
        }
    }
}


// ---------------------------------------------------------------------------
// Candle widths
// ---------------------------------------------------------------------------

/// Duration of one candle.
#[derive(Debug, Clone, Copy, PartialEq, Eq, Structural)]
pub enum CandleWidth {
    OneSecond,
    FiveSecond,
    OneMinute,
    FiveMinute,
    FifteenMinute,
    OneHour,
    OneDay,
}

/// The text of a candle width, e.g. "15m".
pub open spec fn candle_width_text(w: CandleWidth) -> Seq<char> {
    match w {
        CandleWidth::OneSecond => "1s"@,
        CandleWidth::FiveSecond => "5s"@,
        CandleWidth::OneMinute => "1m"@,
        CandleWidth::FiveMinute => "5m"@,
        CandleWidth::FifteenMinute => "15m"@,
        CandleWidth::OneHour => "1h"@,
        CandleWidth::OneDay => "1d"@,
    }
}

/// The candle width written `t`, if any.
pub open spec fn candle_width_from_text(t: Seq<char>) -> Option<CandleWidth> {
    if t == "1s"@ {
        Some(CandleWidth::OneSecond)
    } else if t == "5s"@ {
        Some(CandleWidth::FiveSecond)
    } else if t == "1m"@ {
        Some(CandleWidth::OneMinute)
    } else if t == "5m"@ {
        Some(CandleWidth::FiveMinute)
    } else if t == "15m"@ {
        Some(CandleWidth::FifteenMinute)
    } else if t == "1h"@ {
        Some(CandleWidth::OneHour)
    } else if t == "1d"@ {
        Some(CandleWidth::OneDay)
    } else {
        None
    }
}

/// The length of a candle in nanoseconds.
pub open spec fn candle_width_nanos(w: CandleWidth) -> nat {
    match w {
        CandleWidth::OneSecond => 1_000_000_000,
        CandleWidth::FiveSecond => 5_000_000_000,
        CandleWidth::OneMinute => 60_000_000_000,
        CandleWidth::FiveMinute => 300_000_000_000,
        CandleWidth::FifteenMinute => 900_000_000_000,
        CandleWidth::OneHour => 3_600_000_000_000,
        CandleWidth::OneDay => 86_400_000_000_000,
    }
}

/// The first nanosecond of the candle of width `w` that holds `instant`.
pub open spec fn candle_start(w: CandleWidth, instant: nat) -> nat {
    (instant - instant % candle_width_nanos(w)) as nat
}

/// Whether the candle of width `w` holding `instant` ends before 2^64.
pub open spec fn candle_window_fits(w: CandleWidth, instant: nat) -> bool {
    candle_start(w, instant) + candle_width_nanos(w) - 1 <= u64::MAX
}

impl CandleWidth {
    /// The text of the width (its `Display`).
    pub fn as_str(&self) -> (r: &'static str)
        ensures
            r@ == candle_width_text(*self),
    {
        match self {
            CandleWidth::OneSecond => "1s",
            CandleWidth::FiveSecond => "5s",
            CandleWidth::OneMinute => "1m",
            CandleWidth::FiveMinute => "5m",
            CandleWidth::FifteenMinute => "15m",
            CandleWidth::OneHour => "1h",
            CandleWidth::OneDay => "1d",
        }
    }

    /// The width written `s` (the `FromStr` of the type).
    pub fn from_str(s: &str) -> (r: Result<CandleWidth, TradingError>)
        ensures
            candle_width_from_text(s@) matches Some(x) ==> r == Ok::<CandleWidth, TradingError>(x),
            candle_width_from_text(s@) is None ==> (r matches Err(TradingError::UnrecognizedCandleWidth(t)) && t@ == s@),
    {
        if str_eq(s, "1s") {
            Ok(CandleWidth::OneSecond)
        } else if str_eq(s, "5s") {
            Ok(CandleWidth::FiveSecond)
        } else if str_eq(s, "1m") {
            Ok(CandleWidth::OneMinute)
        } else if str_eq(s, "5m") {
            Ok(CandleWidth::FiveMinute)
        } else if str_eq(s, "15m") {
            Ok(CandleWidth::FifteenMinute)
        } else if str_eq(s, "1h") {
            Ok(CandleWidth::OneHour)
        } else if str_eq(s, "1d") {
            Ok(CandleWidth::OneDay)
        } else {
            Err(TradingError::UnrecognizedCandleWidth(String::from_str(s)))
        }
    }

    /// The length of the candle in nanoseconds.
    pub fn nanos(&self) -> (r: u64)
        ensures
            r == candle_width_nanos(*self),
    {
        match self {
            CandleWidth::OneSecond => 1_000_000_000,
            CandleWidth::FiveSecond => 5_000_000_000,
            CandleWidth::OneMinute => 60_000_000_000,
            CandleWidth::FiveMinute => 300_000_000_000,
            CandleWidth::FifteenMinute => 900_000_000_000,
            CandleWidth::OneHour => 3_600_000_000_000,
            CandleWidth::OneDay => 86_400_000_000_000,
        }
    }

    /// The closed interval of nanosecond timestamps that forms the candle of
    /// this width containing `instant`.
    pub fn to_nanosec_window(&self, instant: u64) -> (r: (u64, u64))
        requires
            candle_window_fits(*self, instant as nat),
        ensures
            r.0 == candle_start(*self, instant as nat),
            r.1 == r.0 + candle_width_nanos(*self) - 1,
    {
        let nanosec = self.nanos();
        let start = instant - (instant % nanosec);
        let end = start + nanosec - 1;
        (start, end)
    }
}

/// Reading back the text of a width gives the width.
pub proof fn lemma_candle_width_text_round_trip(w: CandleWidth)
    ensures
        candle_width_from_text(candle_width_text(w)) == Some(w),
{
    reveal_strlit("1s");
    reveal_strlit("5s");
    reveal_strlit("1m");
    reveal_strlit("5m");
    reveal_strlit("15m");
    reveal_strlit("1h");
    reveal_strlit("1d");
    assert("1s"@.len() == 2 && "1s"@[0] == '1' && "1s"@[1] == 's');
    assert("5s"@.len() == 2 && "5s"@[0] == '5' && "5s"@[1] == 's');
    assert("1m"@.len() == 2 && "1m"@[0] == '1' && "1m"@[1] == 'm');
    assert("5m"@.len() == 2 && "5m"@[0] == '5' && "5m"@[1] == 'm');
    assert("15m"@.len() == 3);
    assert("1h"@.len() == 2 && "1h"@[0] == '1' && "1h"@[1] == 'h');
    assert("1d"@.len() == 2 && "1d"@[0] == '1' && "1d"@[1] == 'd');
}

/// A candle window holds its instant, starts on a multiple of the width, spans
/// exactly the width, and the next window starts right after it ends.
pub proof fn lemma_candle_window(w: CandleWidth, instant: nat)
    ensures
        candle_start(w, instant) <= instant < candle_start(w, instant) + candle_width_nanos(w),
        candle_start(w, instant) % candle_width_nanos(w) == 0,
        candle_start(w, candle_start(w, instant) + candle_width_nanos(w))
            == candle_start(w, instant) + candle_width_nanos(w),
        forall|t: nat|
            candle_start(w, instant) <= t < candle_start(w, instant) + candle_width_nanos(w)
                ==> #[trigger] candle_start(w, t) == candle_start(w, instant),
{
    let n = candle_width_nanos(w) as int;
    let s = candle_start(w, instant) as int;
    let q = instant as int / n;
    assert(n > 0);
    vstd::arithmetic::div_mod::lemma_mod_bound(instant as int, n);
    vstd::arithmetic::div_mod::lemma_fundamental_div_mod_converse(
        instant as int, n, q, instant as int % n);
    assert(instant as int == q * n + instant as int % n) by {
        vstd::arithmetic::div_mod::lemma_fundamental_div_mod(instant as int, n);
        vstd::arithmetic::mul::lemma_mul_is_commutative(n, q);
    }
    assert(s == q * n);
    vstd::arithmetic::div_mod::lemma_fundamental_div_mod_converse(s, n, q, 0);
    assert(s + n == (q + 1) * n) by {
        vstd::arithmetic::mul::lemma_mul_is_distributive_add_other_way(n, q, 1);
    }
    vstd::arithmetic::div_mod::lemma_fundamental_div_mod_converse(s + n, n, q + 1, 0);
    assert forall|t: nat| s <= t < s + n implies #[trigger] candle_start(w, t) == s by {
        vstd::arithmetic::div_mod::lemma_fundamental_div_mod_converse(t as int, n, q, t - s);
    }
}

// ---------------------------------------------------------------------------
// Time of day, instrument states and order settings
// ---------------------------------------------------------------------------

/// A wall-clock time of day.
#[derive(Debug, Clone, Copy, PartialEq, Eq, Structural)]
pub struct TimeOfDay {
    pub hours: u8,
    pub minutes: u8,
    pub seconds: u8,
}

/// Whether a time of day names a second of the clock.
pub open spec fn time_of_day_is_valid(t: TimeOfDay) -> bool {
    t.hours <= 23 && t.minutes <= 59 && t.seconds <= 59
}

impl TimeOfDay {
    /// Checks that the time lies within 00:00:00 .. 23:59:59.
    pub fn validate(&self) -> (r: Result<(), TradingError>)
        ensures
            r is Ok <==> time_of_day_is_valid(*self),
            r matches Err(e) ==> e == (TradingError::InvalidTimeOfDay {
                hours: self.hours,
                minutes: self.minutes,
                seconds: self.seconds,
            }),
    {
        if self.hours > 23 || self.minutes > 59 || self.seconds > 59 {
            Err(TradingError::InvalidTimeOfDay {
                hours: self.hours,
                minutes: self.minutes,
                seconds: self.seconds,
            })
        } else {
            Ok(())
        }
    }
}

/// Trading state of an instrument.
#[derive(Debug, Clone, Copy, PartialEq, Eq, Structural)]
pub enum InstrumentState {
    ClosedFrozen,
    PreOpen,
    Open,
    Closed,
    Delisted,
    Halted,
    MatchAndCloseAuction,
    Unknown,
}

/// The wire name of an instrument state.
pub open spec fn instrument_state_name(s: InstrumentState) -> Seq<char> {
    match s {
        InstrumentState::ClosedFrozen => "CLOSED_FROZEN"@,
        InstrumentState::PreOpen => "PRE_OPEN"@,
        InstrumentState::Open => "OPEN"@,
        InstrumentState::Closed => "CLOSED"@,
        InstrumentState::Delisted => "DELISTED"@,
        InstrumentState::Halted => "HALTED"@,
        InstrumentState::MatchAndCloseAuction => "MATCH_AND_CLOSE_AUCTION"@,
        InstrumentState::Unknown => "UNKNOWN"@,
    }
}

impl InstrumentState {
    /// The wire name of the state (its `Display`).
    pub fn as_str(&self) -> (r: &'static str)
        ensures
            r@ == instrument_state_name(*self),
    {
        match self {
            InstrumentState::ClosedFrozen => "CLOSED_FROZEN",
            InstrumentState::PreOpen => "PRE_OPEN",
            InstrumentState::Open => "OPEN",
            InstrumentState::Closed => "CLOSED",
            InstrumentState::Delisted => "DELISTED",
            InstrumentState::Halted => "HALTED",
            InstrumentState::MatchAndCloseAuction => "MATCH_AND_CLOSE_AUCTION",
            InstrumentState::Unknown => "UNKNOWN",
        }
    }
}

impl Default for InstrumentState {
    fn default() -> (r: Self)
        ensures
            r == InstrumentState::Unknown,
    {
        InstrumentState::Unknown
    }
}

/// Asset class of an instrument.
#[derive(Debug, Clone, Copy, PartialEq, Eq, Structural)]
pub enum InstrumentCategory {
    Compute,
    Treasuries,
    Energy,
    Fx,
    Equities,
    Metals,
    EnergyEtfs,
}

/// The wire name of a category.
pub open spec fn category_name(c: InstrumentCategory) -> Seq<char> {
    match c {
        InstrumentCategory::Compute => "compute"@,
        InstrumentCategory::Treasuries => "treasuries"@,
        InstrumentCategory::Energy => "energy"@,
        InstrumentCategory::Fx => "fx"@,
        InstrumentCategory::Equities => "equities"@,
        InstrumentCategory::Metals => "metals"@,
        InstrumentCategory::EnergyEtfs => "energy_etfs"@,
    }
}

/// The category whose wire name is `n`, if any.
pub open spec fn category_from_name(n: Seq<char>) -> Option<InstrumentCategory> {
    if n == "compute"@ {
        Some(InstrumentCategory::Compute)
    } else if n == "treasuries"@ {
        Some(InstrumentCategory::Treasuries)
    } else if n == "energy"@ {
        Some(InstrumentCategory::Energy)
    } else if n == "fx"@ {
        Some(InstrumentCategory::Fx)
    } else if n == "equities"@ {
        Some(InstrumentCategory::Equities)
    } else if n == "metals"@ {
        Some(InstrumentCategory::Metals)
    } else if n == "energy_etfs"@ {
        Some(InstrumentCategory::EnergyEtfs)
    } else {
        None
    }
}

impl InstrumentCategory {
    /// The wire name of the category (its `Display`).
    pub fn as_str(&self) -> (r: &'static str)
        ensures
            r@ == category_name(*self),
    {
        match self {
            InstrumentCategory::Compute => "compute",
            InstrumentCategory::Treasuries => "treasuries",
            InstrumentCategory::Energy => "energy",
            InstrumentCategory::Fx => "fx",
            InstrumentCategory::Equities => "equities",
            InstrumentCategory::Metals => "metals",
            InstrumentCategory::EnergyEtfs => "energy_etfs",
        }
    }

    /// The category whose wire name is `s` (the `FromStr` of the type).
    pub fn from_name(s: &str) -> (r: Result<InstrumentCategory, TradingError>)
        ensures
            category_from_name(s@) matches Some(x) ==> r == Ok::<InstrumentCategory, TradingError>(x),
            category_from_name(s@) is None ==> (r matches Err(TradingError::UnknownCategory(t)) && t@ == s@),
    {
        if str_eq(s, "compute") {
            Ok(InstrumentCategory::Compute)
        } else if str_eq(s, "treasuries") {
            Ok(InstrumentCategory::Treasuries)
        } else if str_eq(s, "energy") {
            Ok(InstrumentCategory::Energy)
        } else if str_eq(s, "fx") {
            Ok(InstrumentCategory::Fx)
        } else if str_eq(s, "equities") {
            Ok(InstrumentCategory::Equities)
        } else if str_eq(s, "metals") {
            Ok(InstrumentCategory::Metals)
        } else if str_eq(s, "energy_etfs") {
            Ok(InstrumentCategory::EnergyEtfs)
        } else {
            Err(TradingError::UnknownCategory(String::from_str(s)))
        }
    }
}

/// How long an order rests.
#[derive(Debug, Clone, Copy, PartialEq, Eq, Structural)]
pub enum TimeInForce {
    GoodTillCanceled,
    ImmediateOrCancel,
    Day,
}

impl TimeInForce {
    /// The wire code: "GTC", "IOC" or "DAY".
    pub fn as_str(&self) -> (r: &'static str)
        ensures
            r@ == (match *self {
                TimeInForce::GoodTillCanceled => "GTC"@,
                TimeInForce::ImmediateOrCancel => "IOC"@,
                TimeInForce::Day => "DAY"@,
            }),
    {
        match self {
            TimeInForce::GoodTillCanceled => "GTC",
            TimeInForce::ImmediateOrCancel => "IOC",
            TimeInForce::Day => "DAY",
        }
    }
}

/// What the matching engine does when an order would trade against the same
/// account.
#[derive(Debug, Clone, Copy, PartialEq, Eq, Structural)]
pub enum SelfTradeBehavior {
    CancelIncoming,
    CancelResting,
    CancelBoth,
}

impl SelfTradeBehavior {
    /// The name of the behavior (its `Display`).
    pub fn as_str(&self) -> (r: &'static str)
        ensures
            r@ == (match *self {
                SelfTradeBehavior::CancelIncoming => "CancelIncoming"@,
                SelfTradeBehavior::CancelResting => "CancelResting"@,
                SelfTradeBehavior::CancelBoth => "CancelBoth"@,
            }),
    {
        match self {
            SelfTradeBehavior::CancelIncoming => "CancelIncoming",
            SelfTradeBehavior::CancelResting => "CancelResting",
            SelfTradeBehavior::CancelBoth => "CancelBoth",
        }
    }
}

impl Default for SelfTradeBehavior {
    fn default() -> (r: Self)
        ensures
            r == SelfTradeBehavior::CancelIncoming,
    {
        SelfTradeBehavior::CancelIncoming
    }
}

// ---------------------------------------------------------------------------
// Tick sizes and price scales
// ---------------------------------------------------------------------------

/// Greatest common divisor (Euclid), with gcd(a, 0) = a.
pub open spec fn gcd(a: nat, b: nat) -> nat
    decreases b,
{
    if b == 0 {
        a
    } else {
        gcd(b, a % b)
    }
}

/// The gcd of two numbers not both zero is positive and divides the second.
pub proof fn lemma_gcd_positive(a: nat, b: nat)
    requires
        a > 0 || b > 0,
    ensures
        gcd(a, b) > 0,
    decreases b,
{
    if b != 0 {
        lemma_gcd_positive(b, a % b);
    }
}

/// The gcd of anything and a positive number is at most that number.
pub proof fn lemma_gcd_at_most(a: nat, b: nat)
    requires
        b > 0,
    ensures
        gcd(a, b) <= b,
    decreases b,
{
    reveal_with_fuel(gcd, 2);
    vstd::arithmetic::div_mod::lemma_mod_bound(a as int, b as int);
    if a % b != 0 {
        lemma_gcd_at_most(b, a % b);
    }
}

/// The reduced price scale of a positive tick is at least one.
pub proof fn lemma_reduced_price_scale_positive(m: int, s: nat)
    requires
        m > 0,
    ensures
        reduced_price_scale(m, s) >= 1,
{
    let (nm, ns) = strip_trailing_zeros(m, s);
    lemma_strip_bounds(m, s);
    lemma_pow10_monotone(0, ns);
    let g = gcd(nm as nat, pow10(ns));
    lemma_gcd_positive(nm as nat, pow10(ns));
    lemma_gcd_at_most(nm as nat, pow10(ns));
    vstd::arithmetic::div_mod::lemma_div_by_self(g as int);
    vstd::arithmetic::div_mod::lemma_div_is_ordered(g as int, pow10(ns) as int, g as int);
}

/// For a tick of `10^-n` the reduced multiplier is the decimal one, `10^n`:
/// the two conventions coincide on such ticks.
pub proof fn lemma_power_of_ten_tick_price_scale(n: nat)
    ensures
        reduced_price_scale(1, n) == pow10(n),
{
    assert(strip_trailing_zeros(1, n) == (1int, n));
    lemma_pow10_monotone(0, n);
    let p = pow10(n);
    if p == 1 {
        assert(gcd(1, p) == gcd(p, 0)) by {
            assert(1nat % p == 0);
        }
    } else {
        assert(1nat % p == 1) by (nonlinear_arith)
            requires
                p > 1,
        ;
        assert(gcd(1, p) == gcd(p, 1));
        assert(p % 1 == 0) by (nonlinear_arith);
        assert(gcd(p, 1) == gcd(1, 0));
    }
    assert(gcd(1, p) == 1);
    assert(p as int / 1 == p);
}

/// The multiplier `price_scale_from_tick_size` computes for a positive tick
/// `m / 10^s` (when it fits in 64 bits) is one that `validate_price_scale`
/// accepts for that tick.
pub proof fn lemma_computed_price_scale_validates(m: int, s: nat)
    requires
        m > 0,
        reduced_price_scale(m, s) <= i64::MAX,
    ensures
        ({
            let price_scale = reduced_price_scale(m, s) as i64;
            price_scale > 0 && m > 0 && reduced_price_scale(m, s) == price_scale
        }),
{
    lemma_reduced_price_scale_positive(m, s);
}

/// Euclid's algorithm on 128-bit integers.
fn gcd_u128(a: u128, b: u128) -> (r: u128)
    ensures
        r == gcd(a as nat, b as nat),
{
    let ghost a0 = a;
    let ghost b0 = b;
    let mut a = a;
    let mut b = b;
    while b != 0
        invariant
            gcd(a as nat, b as nat) == gcd(a0 as nat, b0 as nat),
        decreases b,
    {
        let next = a % b;
        a = b;
        b = next;
    }
    a
}

/// 10^n as a 128-bit integer.
fn pow10_u128(n: u32) -> (r: u128)
    requires
        n <= MAX_SCALE,
    ensures
        r == pow10(n as nat),
{
    let mut r: u128 = 1;
    let mut i: u32 = 0;
    proof {
        lemma_pow10_monotone(0, 28);
    }
    while i < n
        invariant
            i <= n <= MAX_SCALE,
            r == pow10(i as nat),
            r <= pow10(28),
        decreases n - i,
    {
        proof {
            lemma_pow10_monotone((i + 1) as nat, 28);
        }
        r = r * 10;
        i = i + 1;
    }
    r
}

/// 10^n grows with n, and 10^28 fits in 128 bits.
pub proof fn lemma_pow10_monotone(i: nat, j: nat)
    requires
        i <= j,
    ensures
        1 <= pow10(i) <= pow10(j),
        pow10(28) == 10_000_000_000_000_000_000_000_000_000nat,
    decreases j,
{
    reveal_with_fuel(pow10, 29);
    if i < j {
        lemma_pow10_monotone(i, (j - 1) as nat);
    } else if i > 0 {
        lemma_pow10_monotone((i - 1) as nat, (i - 1) as nat);
    }
}

/// The reduced price multiplier of a positive tick `m / 10^s`: the
/// denominator of the fraction in lowest terms.
pub open spec fn reduced_price_scale(m: int, s: nat) -> int {
    let (nm, ns) = strip_trailing_zeros(m, s);
    pow10(ns) as int / gcd((if nm < 0 { -nm } else { nm }) as nat, pow10(ns)) as int
}

/// The tick size in lowest terms: trailing zeros of the mantissa dropped.
pub open spec fn normalized_tick(m: int, s: nat) -> (int, nat) {
    strip_trailing_zeros(m, s)
}

/// Returns the canonical integer multiplier used to scale prices for
/// `tick_size`: the reduced denominator, e.g. `0.05 -> 20`.
pub fn price_scale_from_tick_size(tick_size: Decimal) -> (r: Result<i64, TradingError>)
    ensures
        tick_size.spec_mantissa() <= 0 ==> (r matches Err(TradingError::NonPositiveTickSize { tick_size: t })
            && t.spec_mantissa() == tick_size.spec_mantissa() && t.spec_scale() == tick_size.spec_scale()),
        tick_size.spec_mantissa() > 0 && reduced_price_scale(tick_size.spec_mantissa(), tick_size.spec_scale()) <= i64::MAX
            ==> r == Ok::<i64, TradingError>(reduced_price_scale(tick_size.spec_mantissa(), tick_size.spec_scale()) as i64),
        tick_size.spec_mantissa() > 0 && reduced_price_scale(tick_size.spec_mantissa(), tick_size.spec_scale()) > i64::MAX
            ==> (r matches Err(TradingError::PriceScaleOverflow { price_scale: p, tick_size: t })
            && p == reduced_price_scale(tick_size.spec_mantissa(), tick_size.spec_scale())
            && (t.spec_mantissa(), t.spec_scale()) == normalized_tick(tick_size.spec_mantissa(), tick_size.spec_scale())),
{
    let m = tick_size.mantissa();
    let s = tick_size.scale();
    if m <= 0 {
        return Err(TradingError::NonPositiveTickSize { tick_size });
    }
    let (nm, ns) = normalize_parts(m, s);
    proof {
        lemma_strip_bounds(m as int, s as nat);
    }
    let numerator: u128 = nm as u128;
    let denominator = pow10_u128(ns);
    let g = gcd_u128(numerator, denominator);
    proof {
        lemma_pow10_monotone(ns as nat, 28);
        lemma_gcd_positive(numerator as nat, denominator as nat);
    }
    let price_scale = denominator / g;
    if price_scale > (i64::MAX as u128) {
        let normalized = Decimal::from_parts(nm, ns);
        match normalized {
            Some(t) => Err(TradingError::PriceScaleOverflow { price_scale, tick_size: t }),
            None => Err(TradingError::PriceScaleOverflow { price_scale, tick_size }),
        }
    } else {
        Ok(price_scale as i64)
    }
}

/// Checks that `price_scale` is the canonical multiplier for `tick_size`.
pub fn validate_price_scale(symbol: &str, tick_size: Decimal, price_scale: i64) -> (r: Result<(), TradingError>)
    ensures
        r is Ok <==> (price_scale > 0 && tick_size.spec_mantissa() > 0
            && reduced_price_scale(tick_size.spec_mantissa(), tick_size.spec_scale()) == price_scale),
        price_scale <= 0 ==> (r matches Err(TradingError::NonPositivePriceScale { symbol: s, price_scale: p })
            && s@ == symbol@ && p == price_scale),
        price_scale > 0 && tick_size.spec_mantissa() <= 0 ==> (r matches Err(TradingError::NonPositiveTickSize { tick_size: t })
            && t.spec_mantissa() == tick_size.spec_mantissa() && t.spec_scale() == tick_size.spec_scale()),
        price_scale > 0 && tick_size.spec_mantissa() > 0 && reduced_price_scale(tick_size.spec_mantissa(), tick_size.spec_scale()) > i64::MAX
            ==> r matches Err(TradingError::PriceScaleOverflow { .. }),
        price_scale > 0 && tick_size.spec_mantissa() > 0 && reduced_price_scale(tick_size.spec_mantissa(), tick_size.spec_scale()) <= i64::MAX
            && reduced_price_scale(tick_size.spec_mantissa(), tick_size.spec_scale()) != price_scale
            ==> (r matches Err(TradingError::PriceScaleMismatch { symbol: s, price_scale: p, expected: x, tick_size: t })
            && s@ == symbol@ && p == price_scale && x == reduced_price_scale(tick_size.spec_mantissa(), tick_size.spec_scale())
            && t.spec_mantissa() == tick_size.spec_mantissa() && t.spec_scale() == tick_size.spec_scale()),
{
    if price_scale <= 0 {
        return Err(TradingError::NonPositivePriceScale { symbol: String::from_str(symbol), price_scale });
    }
    proof {
        if tick_size.spec_mantissa() > 0 {
            lemma_reduced_price_scale_positive(tick_size.spec_mantissa(), tick_size.spec_scale());
        }
    }
    let expected = match price_scale_from_tick_size(tick_size) {
        Ok(e) => e,
        Err(e) => return Err(e),
    };
    if price_scale != expected {
        return Err(TradingError::PriceScaleMismatch {
            symbol: String::from_str(symbol),
            price_scale,
            expected,
            tick_size,
        });
    }
    Ok(())
}

// ---------------------------------------------------------------------------
// Instruments, orders and account records
// ---------------------------------------------------------------------------

/// The first version of the instrument record.
#[derive(Debug, Clone)]
pub struct InstrumentV0 {
    pub symbol: String,
    pub tick_size: Decimal,
    pub base_currency: String,
    pub multiplier: i32,
    pub minimum_trade_quantity: u64,
    pub description: String,
    pub product_id: String,
    pub state: String,
    pub price_scale: i32,
}

/// The specification of an instrument.
#[derive(Debug, Clone)]
pub struct Instrument {
    pub symbol: String,
    /// Expiry of a dated contract; `None` for a perpetual.
    pub expiration: Option<UtcTime>,
    pub multiplier: Decimal,
    pub price_scale: i64,
    pub minimum_order_size: Decimal,
    pub tick_size: Decimal,
    pub quote_currency: String,
    pub price_band_lower_deviation_pct: Option<Decimal>,
    pub price_band_upper_deviation_pct: Option<Decimal>,
    pub funding_settlement_currency: String,
    pub funding_rate_cap_upper_pct: Option<Decimal>,
    pub funding_rate_cap_lower_pct: Option<Decimal>,
    pub maintenance_margin_pct: Decimal,
    pub initial_margin_pct: Decimal,
    pub category: InstrumentCategory,
    pub description: Option<String>,
    pub underlying_benchmark_price: Option<String>,
    pub contract_mark_price: Option<String>,
    pub contract_size: Option<String>,
    pub price_quotation: Option<String>,
    pub price_bands: Option<String>,
    pub funding_schedule_time_description: Option<String>,
    pub funding_schedule_calendar_description: Option<String>,
    pub funding_schedule: Option<FundingRateSchedule>,
    pub trading_schedule: Option<TradingSchedule>,
    pub estimated_funding_supported: bool,
    /// Further specifications as name/value pairs.
    pub additional_product_specs: Option<Vec<(String, String)>>,
}

impl Instrument {
    /// Whether the instrument is a perpetual: it has no expiry.
    pub fn is_perpetual(&self) -> (r: bool)
        ensures
            r == (self.expiration is None),
    {
        self.expiration.is_none()
    }
}

/// The weekly trading hours of an instrument.
#[derive(Debug, Clone)]
pub struct TradingSchedule {
    pub segments: Vec<TradingHoursSegment>,
}

/// A recurring stretch of the trading week in which an instrument is in a
/// given state.
#[derive(Debug, Clone)]
pub struct TradingHoursSegment {
    pub days_of_week: DaysOfWeek,
    pub time_of_day: TimeOfDay,
    pub duration_seconds: u64,
    pub state: InstrumentState,
    pub hide_market_data: bool,
    pub expire_all_orders: bool,
}

/// An order as the client asks for it.
#[derive(Debug, Clone)]
pub struct PlaceOrder {
    pub symbol: String,
    pub side: Side,
    pub quantity: u64,
    pub price: Decimal,
    pub time_in_force: TimeInForce,
    pub post_only: bool,
    pub tag: Option<String>,
    pub clord_id: Option<ClientOrderId>,
    pub self_trade_prevention: SelfTradeBehavior,
    pub account_id: Option<String>,
}

/// An order as the exchange keeps it.
#[derive(Debug, Clone)]
pub struct Order {
    pub order_id: OrderId,
    pub user_id: String,
    pub account_id: String,
    pub symbol: String,
    pub side: Side,
    pub quantity: u64,
    pub price: Decimal,
    pub time_in_force: TimeInForce,
    pub tag: Option<String>,
    pub clord_id: Option<ClientOrderId>,
    pub post_only: bool,
    pub timestamp: UtcTime,
    pub order_state: OrderState,
    pub filled_quantity: u64,
    pub remaining_quantity: u64,
    pub completion_time: Option<UtcTime>,
    pub reject_reason: Option<OrderRejectReason>,
    pub reject_message: Option<String>,
}

impl Order {
    /// Whether the order is a liquidation (its id starts with `L-`).
    pub fn is_liquidation(&self) -> (r: bool)
        ensures
            r == is_liquidation_id(self.order_id@),
    {
        self.order_id.is_liquidation()
    }
}

/// A balance of one currency.
#[derive(Debug, Clone)]
pub struct Balance {
    pub currency: String,
    pub available: Decimal,
    pub total: Decimal,
}

/// A position in one instrument.
#[derive(Debug, Clone)]
pub struct Position {
    pub symbol: String,
    pub signed_quantity: i64,
    pub average_price: Decimal,
    pub unrealized_pnl: Decimal,
    pub realized_pnl: Decimal,
    pub mark_price: Decimal,
    pub timestamp: UtcTime,
}

/// A price candle.
#[derive(Debug, Clone)]
pub struct Candle {
    pub symbol: String,
    pub timestamp: UtcTime,
    pub open: Decimal,
    pub high: Decimal,
    pub low: Decimal,
    pub close: Decimal,
    pub buy_volume: u64,
    pub sell_volume: u64,
    pub volume: u64,
    pub width: CandleWidth,
}

/// A best-bid/offer candle.
#[derive(Debug, Clone)]
pub struct BboCandle {
    pub symbol: String,
    pub timestamp: UtcTime,
    pub bid_open: Option<Decimal>,
    pub bid_high: Option<Decimal>,
    pub bid_low: Option<Decimal>,
    pub bid_close: Option<Decimal>,
    pub ask_open: Option<Decimal>,
    pub ask_high: Option<Decimal>,
    pub ask_low: Option<Decimal>,
    pub ask_close: Option<Decimal>,
    pub mid_open: Option<Decimal>,
    pub mid_high: Option<Decimal>,
    pub mid_low: Option<Decimal>,
    pub mid_close: Option<Decimal>,
    pub width: CandleWidth,
}

/// Open interest of an instrument over time.
#[derive(Debug, Clone)]
pub struct OpenInterest {
    pub symbol: String,
    pub data: Vec<OpenInterestData>,
}

/// Open interest at an instant.
#[derive(Debug, Clone)]
pub struct OpenInterestData {
    pub timestamp: UtcTime,
    pub open_interest: Decimal,
}

/// A funding payment of a position.
#[derive(Debug, Clone)]
pub struct FundingHistory {
    pub symbol: String,
    pub funding_amount: Decimal,
    pub net_position: i32,
    pub timestamp: UtcTime,
    pub funding_rate: Decimal,
}

/// A deposit.
#[derive(Debug, Clone)]
pub struct DepositRecord {
    pub id: String,
    pub symbol: String,
    pub timestamp: UtcTime,
    pub amount: Decimal,
}

/// A withdrawal.
#[derive(Debug, Clone)]
pub struct WithdrawalRecord {
    pub id: String,
    pub symbol: String,
    pub timestamp: UtcTime,
    pub amount: Decimal,
}

} // verus!
