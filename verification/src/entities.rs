//! The entity objects of the vendor's trading API: orders, positions,
//! assets and watchlists, with the closed enums that mirror the vendor's
//! wire strings, and verified decoders from a parsed JSON document to each
//! record.

use vstd::prelude::*;
use crate::json::{Json, JsonValue, str_eq};
use crate::num::Decimal;
use crate::utils::{
    sfield_str, sfield_dec, sfield_opt_dec, sfield_opt_str, sfield_u64, sfield_i64, sfield_bool,
    sfield_bool_or, sfield_str_list, strs_view, get_str, get_dec, get_opt_dec, get_opt_str,
    get_u64, get_i64, get_bool, get_bool_or, get_str_list,
};

verus! {

/// The stock exchanges the vendor reports, keyed by their one-letter tape
/// codes.
#[derive(Clone, Copy, Debug, PartialEq, Eq, Structural)]
pub enum Exchange {
    Amex,
    NasdaqOmxBx,
    NationalStockExchange,
    FinraAdf,
    MarketIndependent,
    Miax,
    InternationalSecuritiesExchange,
    CboeEdga,
    CboeEdgx,
    LongTermStockExchange,
    ChicagoStockExchange,
    NewYorkStockExchange,
    NyseArca,
    NasdaqOmx,
    NasdaqSmallCap,
    NasdaqInt,
    MembersExchange,
    Iex,
    Cboe,
    NasdaqOmxPsx,
    CboeByx,
    CboeBzx,
}

impl Exchange {
    /// The exchange a wire code names.
    pub open spec fn of_wire(s: Seq<char>) -> Option<Exchange> {
        if s == "A"@ {
            Some(Exchange::Amex)
        } else if s == "B"@ {
            Some(Exchange::NasdaqOmxBx)
        } else if s == "C"@ {
            Some(Exchange::NationalStockExchange)
        } else if s == "D"@ {
            Some(Exchange::FinraAdf)
        } else if s == "E"@ {
            Some(Exchange::MarketIndependent)
        } else if s == "H"@ {
            Some(Exchange::Miax)
        } else if s == "I"@ {
            Some(Exchange::InternationalSecuritiesExchange)
        } else if s == "J"@ {
            Some(Exchange::CboeEdga)
        } else if s == "K"@ {
            Some(Exchange::CboeEdgx)
        } else if s == "L"@ {
            Some(Exchange::LongTermStockExchange)
        } else if s == "M"@ {
            Some(Exchange::ChicagoStockExchange)
        } else if s == "N"@ {
            Some(Exchange::NewYorkStockExchange)
        } else if s == "P"@ {
            Some(Exchange::NyseArca)
        } else if s == "Q"@ {
            Some(Exchange::NasdaqOmx)
        } else if s == "S"@ {
            Some(Exchange::NasdaqSmallCap)
        } else if s == "T"@ {
            Some(Exchange::NasdaqInt)
        } else if s == "U"@ {
            Some(Exchange::MembersExchange)
        } else if s == "V"@ {
            Some(Exchange::Iex)
        } else if s == "W"@ {
            Some(Exchange::Cboe)
        } else if s == "X"@ {
            Some(Exchange::NasdaqOmxPsx)
        } else if s == "Y"@ {
            Some(Exchange::CboeByx)
        } else if s == "Z"@ {
            Some(Exchange::CboeBzx)
        } else {
            None
        }
    }

    /// Reads an exchange from its wire code.
    pub fn from_wire(s: &str) -> (r: Option<Exchange>)
        ensures
            r == Exchange::of_wire(s@),
    {
        if str_eq(s, "A") {
            Some(Exchange::Amex)
        } else if str_eq(s, "B") {
            Some(Exchange::NasdaqOmxBx)
        } else if str_eq(s, "C") {
            Some(Exchange::NationalStockExchange)
        } else if str_eq(s, "D") {
            Some(Exchange::FinraAdf)
        } else if str_eq(s, "E") {
            Some(Exchange::MarketIndependent)
        } else if str_eq(s, "H") {
            Some(Exchange::Miax)
        } else if str_eq(s, "I") {
            Some(Exchange::InternationalSecuritiesExchange)
        } else if str_eq(s, "J") {
            Some(Exchange::CboeEdga)
        } else if str_eq(s, "K") {
            Some(Exchange::CboeEdgx)
        } else if str_eq(s, "L") {
            Some(Exchange::LongTermStockExchange)
        } else if str_eq(s, "M") {
            Some(Exchange::ChicagoStockExchange)
        } else if str_eq(s, "N") {
            Some(Exchange::NewYorkStockExchange)
        } else if str_eq(s, "P") {
            Some(Exchange::NyseArca)
        } else if str_eq(s, "Q") {
            Some(Exchange::NasdaqOmx)
        } else if str_eq(s, "S") {
            Some(Exchange::NasdaqSmallCap)
        } else if str_eq(s, "T") {
            Some(Exchange::NasdaqInt)
        } else if str_eq(s, "U") {
            Some(Exchange::MembersExchange)
        } else if str_eq(s, "V") {
            Some(Exchange::Iex)
        } else if str_eq(s, "W") {
            Some(Exchange::Cboe)
        } else if str_eq(s, "X") {
            Some(Exchange::NasdaqOmxPsx)
        } else if str_eq(s, "Y") {
            Some(Exchange::CboeByx)
        } else if str_eq(s, "Z") {
            Some(Exchange::CboeBzx)
        } else {
            None
        }
    }
}

/// How an order relates to others placed with it.
#[derive(Clone, Copy, Debug, PartialEq, Eq, Structural)]
pub enum OrderClass {
    /// Class of the orders that are generated when closing a position;
    /// the vendor sends it as the empty string.
    Closure,
    Simple,
    Bracket,
    OneTriggersOther,
    OneCancelsOther,
}

impl OrderClass {
    /// The order class a wire string names.
    pub open spec fn of_wire(s: Seq<char>) -> Option<OrderClass> {
        if s == ""@ {
            Some(OrderClass::Closure)
        } else if s == "simple"@ {
            Some(OrderClass::Simple)
        } else if s == "bracket"@ {
            Some(OrderClass::Bracket)
        } else if s == "oto"@ {
            Some(OrderClass::OneTriggersOther)
        } else if s == "oco"@ {
            Some(OrderClass::OneCancelsOther)
        } else {
            None
        }
    }

    /// Reads an order class from its wire string.
    pub fn from_wire(s: &str) -> (r: Option<OrderClass>)
        ensures
            r == OrderClass::of_wire(s@),
    {
        if str_eq(s, "") {
            Some(OrderClass::Closure)
        } else if str_eq(s, "simple") {
            Some(OrderClass::Simple)
        } else if str_eq(s, "bracket") {
            Some(OrderClass::Bracket)
        } else if str_eq(s, "oto") {
            Some(OrderClass::OneTriggersOther)
        } else if str_eq(s, "oco") {
            Some(OrderClass::OneCancelsOther)
        } else {
            None
        }
    }
}

/// How an order's price is determined.
#[derive(Clone, Copy, Debug, PartialEq, Eq, Structural)]
pub enum OrderType {
    Market,
    Limit,
    Stop,
    StopLimit,
    TrailingStop,
}

impl OrderType {
    /// The order type a wire string names.
    pub open spec fn of_wire(s: Seq<char>) -> Option<OrderType> {
        if s == "market"@ {
            Some(OrderType::Market)
        } else if s == "limit"@ {
            Some(OrderType::Limit)
        } else if s == "stop"@ {
            Some(OrderType::Stop)
        } else if s == "stop_limit"@ {
            Some(OrderType::StopLimit)
        } else if s == "trailing_stop"@ {
            Some(OrderType::TrailingStop)
        } else {
            None
        }
    }

    /// Reads an order type from its wire string.
    pub fn from_wire(s: &str) -> (r: Option<OrderType>)
        ensures
            r == OrderType::of_wire(s@),
    {
        if str_eq(s, "market") {
            Some(OrderType::Market)
        } else if str_eq(s, "limit") {
            Some(OrderType::Limit)
        } else if str_eq(s, "stop") {
            Some(OrderType::Stop)
        } else if str_eq(s, "stop_limit") {
            Some(OrderType::StopLimit)
        } else if str_eq(s, "trailing_stop") {
            Some(OrderType::TrailingStop)
        } else {
            None
        }
    }
}

/// Whether an order buys or sells.
#[derive(Clone, Copy, Debug, PartialEq, Eq, Structural)]
pub enum OrderSide {
    Buy,
    Sell,
}

impl OrderSide {
    /// The side a wire string names.
    pub open spec fn of_wire(s: Seq<char>) -> Option<OrderSide> {
        if s == "buy"@ {
            Some(OrderSide::Buy)
        } else if s == "sell"@ {
            Some(OrderSide::Sell)
        } else {
            None
        }
    }

    /// Reads a side from its wire string.
    pub fn from_wire(s: &str) -> (r: Option<OrderSide>)
        ensures
            r == OrderSide::of_wire(s@),
    {
        if str_eq(s, "buy") {
            Some(OrderSide::Buy)
        } else if str_eq(s, "sell") {
            Some(OrderSide::Sell)
        } else {
            None
        }
    }
}

/// A sort order for listing requests.
#[derive(Clone, Copy, Debug, PartialEq, Eq, Structural)]
pub enum Direction {
    Ascending,
    Descending,
}

impl Direction {
    /// The direction a wire string names.
    pub open spec fn of_wire(s: Seq<char>) -> Option<Direction> {
        if s == "asc"@ {
            Some(Direction::Ascending)
        } else if s == "desc"@ {
            Some(Direction::Descending)
        } else {
            None
        }
    }

    /// Reads a direction from its wire string.
    pub fn from_wire(s: &str) -> (r: Option<Direction>)
        ensures
            r == Direction::of_wire(s@),
    {
        if str_eq(s, "asc") {
            Some(Direction::Ascending)
        } else if str_eq(s, "desc") {
            Some(Direction::Descending)
        } else {
            None
        }
    }
}

/// How long an order stays eligible for execution.
#[derive(Clone, Copy, Debug, PartialEq, Eq, Structural)]
pub enum TimeInForce {
    Day,
    GoodUntilCanceled,
    OpeningAuction,
    ClosingAuction,
    ImmediateOrCancel,
    FillOrKill,
}

impl TimeInForce {
    /// The designation a wire string names.
    pub open spec fn of_wire(s: Seq<char>) -> Option<TimeInForce> {
        if s == "day"@ {
            Some(TimeInForce::Day)
        } else if s == "gtc"@ {
            Some(TimeInForce::GoodUntilCanceled)
        } else if s == "opg"@ {
            Some(TimeInForce::OpeningAuction)
        } else if s == "cls"@ {
            Some(TimeInForce::ClosingAuction)
        } else if s == "ioc"@ {
            Some(TimeInForce::ImmediateOrCancel)
        } else if s == "fok"@ {
            Some(TimeInForce::FillOrKill)
        } else {
            None
        }
    }

    /// Reads a designation from its wire string.
    pub fn from_wire(s: &str) -> (r: Option<TimeInForce>)
        ensures
            r == TimeInForce::of_wire(s@),
    {
        if str_eq(s, "day") {
            Some(TimeInForce::Day)
        } else if str_eq(s, "gtc") {
            Some(TimeInForce::GoodUntilCanceled)
        } else if str_eq(s, "opg") {
            Some(TimeInForce::OpeningAuction)
        } else if str_eq(s, "cls") {
            Some(TimeInForce::ClosingAuction)
        } else if str_eq(s, "ioc") {
            Some(TimeInForce::ImmediateOrCancel)
        } else if str_eq(s, "fok") {
            Some(TimeInForce::FillOrKill)
        } else {
            None
        }
    }
}

/// Where an order stands in its lifecycle.
#[derive(Clone, Copy, Debug, PartialEq, Eq, Structural)]
pub enum OrderStatus {
    New,
    PartiallyFilled,
    Filled,
    DoneForDay,
    Canceled,
    Expired,
    Replaced,
    PendingCancel,
    PendingReplace,
    Accepted,
    PendingNew,
    AcceptedForBidding,
    Stopped,
    Rejected,
    Suspended,
    Calculated,
}

impl OrderStatus {
    /// The status a wire string names.
    pub open spec fn of_wire(s: Seq<char>) -> Option<OrderStatus> {
        if s == "new"@ {
            Some(OrderStatus::New)
        } else if s == "partially_filled"@ {
            Some(OrderStatus::PartiallyFilled)
        } else if s == "filled"@ {
            Some(OrderStatus::Filled)
        } else if s == "done_for_day"@ {
            Some(OrderStatus::DoneForDay)
        } else if s == "canceled"@ {
            Some(OrderStatus::Canceled)
        } else if s == "expired"@ {
            Some(OrderStatus::Expired)
        } else if s == "replaced"@ {
            Some(OrderStatus::Replaced)
        } else if s == "pending_cancel"@ {
            Some(OrderStatus::PendingCancel)
        } else if s == "pending_replace"@ {
            Some(OrderStatus::PendingReplace)
        } else if s == "accepted"@ {
            Some(OrderStatus::Accepted)
        } else if s == "pending_new"@ {
            Some(OrderStatus::PendingNew)
        } else if s == "accepted_for_bidding"@ {
            Some(OrderStatus::AcceptedForBidding)
        } else if s == "stopped"@ {
            Some(OrderStatus::Stopped)
        } else if s == "rejected"@ {
            Some(OrderStatus::Rejected)
        } else if s == "suspended"@ {
            Some(OrderStatus::Suspended)
        } else if s == "calculated"@ {
            Some(OrderStatus::Calculated)
        } else {
            None
        }
    }

    /// Reads a status from its wire string.
    pub fn from_wire(s: &str) -> (r: Option<OrderStatus>)
        ensures
            r == OrderStatus::of_wire(s@),
    {
        if str_eq(s, "new") {
            Some(OrderStatus::New)
        } else if str_eq(s, "partially_filled") {
            Some(OrderStatus::PartiallyFilled)
        } else if str_eq(s, "filled") {
            Some(OrderStatus::Filled)
        } else if str_eq(s, "done_for_day") {
            Some(OrderStatus::DoneForDay)
        } else if str_eq(s, "canceled") {
            Some(OrderStatus::Canceled)
        } else if str_eq(s, "expired") {
            Some(OrderStatus::Expired)
        } else if str_eq(s, "replaced") {
            Some(OrderStatus::Replaced)
        } else if str_eq(s, "pending_cancel") {
            Some(OrderStatus::PendingCancel)
        } else if str_eq(s, "pending_replace") {
            Some(OrderStatus::PendingReplace)
        } else if str_eq(s, "accepted") {
            Some(OrderStatus::Accepted)
        } else if str_eq(s, "pending_new") {
            Some(OrderStatus::PendingNew)
        } else if str_eq(s, "accepted_for_bidding") {
            Some(OrderStatus::AcceptedForBidding)
        } else if str_eq(s, "stopped") {
            Some(OrderStatus::Stopped)
        } else if str_eq(s, "rejected") {
            Some(OrderStatus::Rejected)
        } else if str_eq(s, "suspended") {
            Some(OrderStatus::Suspended)
        } else if str_eq(s, "calculated") {
            Some(OrderStatus::Calculated)
        } else {
            None
        }
    }
}

/// Whether a position is long or short.
#[derive(Clone, Copy, Debug, PartialEq, Eq, Structural)]
pub enum PositionSide {
    /// Bought before selling.
    Long,
    /// Sold before buying.
    Short,
}

impl PositionSide {
    /// The side a wire string names.
    pub open spec fn of_wire(s: Seq<char>) -> Option<PositionSide> {
        if s == "long"@ {
            Some(PositionSide::Long)
        } else if s == "short"@ {
            Some(PositionSide::Short)
        } else {
            None
        }
    }

    /// Reads a side from its wire string.
    pub fn from_wire(s: &str) -> (r: Option<PositionSide>)
        ensures
            r == PositionSide::of_wire(s@),
    {
        if str_eq(s, "long") {
            Some(PositionSide::Long)
        } else if str_eq(s, "short") {
            Some(PositionSide::Short)
        } else {
            None
        }
    }
}

/// Whether an asset is open for trading.
#[derive(Clone, Copy, Debug, PartialEq, Eq, Hash, Structural)]
pub enum AssetStatus {
    Active,
    Inactive,
}

impl AssetStatus {
    /// The wire string of this status.
    pub open spec fn wire(self) -> Seq<char> {
        match self {
            AssetStatus::Active => "active"@,
            AssetStatus::Inactive => "inactive"@,
        }
    }

    /// The status a wire string names.
    pub open spec fn of_wire(s: Seq<char>) -> Option<AssetStatus> {
        if s == "active"@ {
            Some(AssetStatus::Active)
        } else if s == "inactive"@ {
            Some(AssetStatus::Inactive)
        } else {
            None
        }
    }

    /// Reads a status from its wire string.
    pub fn from_wire(s: &str) -> (r: Option<AssetStatus>)
        ensures
            r == AssetStatus::of_wire(s@),
    {
        if str_eq(s, "active") {
            Some(AssetStatus::Active)
        } else if str_eq(s, "inactive") {
            Some(AssetStatus::Inactive)
        } else {
            None
        }
    }

    /// The wire string of this status, as sent in listing queries.
    pub fn to_str(self) -> (r: &'static str)
        ensures
            r@ == self.wire(),
            AssetStatus::of_wire(r@) == Some(self),
    {
        match self {
            AssetStatus::Active => {
                let r = "active";
                proof {
                    assert(AssetStatus::of_wire(r@) == Some(AssetStatus::Active));
                }
                r
            },
            AssetStatus::Inactive => {
                let r = "inactive";
                proof {
                    reveal_strlit("active");
                    reveal_strlit("inactive");
                    assert(r@.len() == 8);
                    assert(("active"@).len() == 6);
                }
                r
            },
        }
    }
}

/// The status code of one cancellation attempt, as the vendor grades it.
#[derive(Clone, Copy, Debug, PartialEq, Eq, Structural)]
pub enum CancelationStatus {
    /// Cancellation succeeded.
    Success,
    /// Processed, with no reply body.
    NoContent,
    /// The order was not found.
    NotFound,
    /// The order cannot be canceled.
    Unprocessable,
}

impl CancelationStatus {
    /// The HTTP status this grade mirrors.
    pub open spec fn spec_code(self) -> u16 {
        match self {
            CancelationStatus::Success => 200,
            CancelationStatus::NoContent => 204,
            CancelationStatus::NotFound => 404,
            CancelationStatus::Unprocessable => 422,
        }
    }

    /// The grade of an HTTP status.
    pub open spec fn of_code(c: u16) -> Option<CancelationStatus> {
        if c == 200 {
            Some(CancelationStatus::Success)
        } else if c == 204 {
            Some(CancelationStatus::NoContent)
        } else if c == 404 {
            Some(CancelationStatus::NotFound)
        } else if c == 422 {
            Some(CancelationStatus::Unprocessable)
        } else {
            None
        }
    }

    /// Reads the grade of an HTTP status.
    pub fn from_code(c: u16) -> (r: Option<CancelationStatus>)
        ensures
            r == CancelationStatus::of_code(c),
    {
        match c {
            200 => Some(CancelationStatus::Success),
            204 => Some(CancelationStatus::NoContent),
            404 => Some(CancelationStatus::NotFound),
            422 => Some(CancelationStatus::Unprocessable),
            _ => None,
        }
    }

    /// The HTTP status this grade mirrors.
    pub fn code(self) -> (r: u16)
        ensures
            r == self.spec_code(),
    {
        match self {
            CancelationStatus::Success => 200,
            CancelationStatus::NoContent => 204,
            CancelationStatus::NotFound => 404,
            CancelationStatus::Unprocessable => 422,
        }
    }
}

/// The status code of one position-closure attempt.
#[derive(Clone, Copy, Debug, PartialEq, Eq, Structural)]
pub enum ClosureStatus {
    /// Closure succeeded.
    Success,
    /// Processed, with no reply body.
    NoContent,
    /// The action is forbidden.
    Forbidden,
    /// The position was not found.
    NotFound,
    /// The position cannot be closed.
    Unprocessable,
}

impl ClosureStatus {
    /// The HTTP status this grade mirrors.
    pub open spec fn spec_code(self) -> u16 {
        match self {
            ClosureStatus::Success => 200,
            ClosureStatus::NoContent => 204,
            ClosureStatus::Forbidden => 403,
            ClosureStatus::NotFound => 404,
            ClosureStatus::Unprocessable => 422,
        }
    }

    /// The grade of an HTTP status.
    pub open spec fn of_code(c: u16) -> Option<ClosureStatus> {
        if c == 200 {
            Some(ClosureStatus::Success)
        } else if c == 204 {
            Some(ClosureStatus::NoContent)
        } else if c == 403 {
            Some(ClosureStatus::Forbidden)
        } else if c == 404 {
            Some(ClosureStatus::NotFound)
        } else if c == 422 {
            Some(ClosureStatus::Unprocessable)
        } else {
            None
        }
    }

    /// Reads the grade of an HTTP status.
    pub fn from_code(c: u16) -> (r: Option<ClosureStatus>)
        ensures
            r == ClosureStatus::of_code(c),
    {
        match c {
            200 => Some(ClosureStatus::Success),
            204 => Some(ClosureStatus::NoContent),
            403 => Some(ClosureStatus::Forbidden),
            404 => Some(ClosureStatus::NotFound),
            422 => Some(ClosureStatus::Unprocessable),
            _ => None,
        }
    }

    /// The HTTP status this grade mirrors.
    pub fn code(self) -> (r: u16)
        ensures
            r == self.spec_code(),
    {
        match self {
            ClosureStatus::Success => 200,
            ClosureStatus::NoContent => 204,
            ClosureStatus::Forbidden => 403,
            ClosureStatus::NotFound => 404,
            ClosureStatus::Unprocessable => 422,
        }
    }
}

/// A required field naming an [`Exchange`].
pub open spec fn sfield_exchange(j: Json, key: Seq<char>) -> Option<Exchange> {
    match sfield_str(j, key) {
        Some(s) => Exchange::of_wire(s),
        None => None,
    }
}

/// A required field naming an [`OrderClass`].
pub open spec fn sfield_order_class(j: Json, key: Seq<char>) -> Option<OrderClass> {
    match sfield_str(j, key) {
        Some(s) => OrderClass::of_wire(s),
        None => None,
    }
}

/// A required field naming an [`OrderType`].
pub open spec fn sfield_order_type(j: Json, key: Seq<char>) -> Option<OrderType> {
    match sfield_str(j, key) {
        Some(s) => OrderType::of_wire(s),
        None => None,
    }
}

/// A required field naming an [`OrderSide`].
pub open spec fn sfield_order_side(j: Json, key: Seq<char>) -> Option<OrderSide> {
    match sfield_str(j, key) {
        Some(s) => OrderSide::of_wire(s),
        None => None,
    }
}

/// A required field naming a [`TimeInForce`].
pub open spec fn sfield_tif(j: Json, key: Seq<char>) -> Option<TimeInForce> {
    match sfield_str(j, key) {
        Some(s) => TimeInForce::of_wire(s),
        None => None,
    }
}

/// A required field naming an [`OrderStatus`].
pub open spec fn sfield_order_status(j: Json, key: Seq<char>) -> Option<OrderStatus> {
    match sfield_str(j, key) {
        Some(s) => OrderStatus::of_wire(s),
        None => None,
    }
}

/// A required field naming a [`PositionSide`].
pub open spec fn sfield_position_side(j: Json, key: Seq<char>) -> Option<PositionSide> {
    match sfield_str(j, key) {
        Some(s) => PositionSide::of_wire(s),
        None => None,
    }
}

/// A required field naming an [`AssetStatus`].
pub open spec fn sfield_asset_status(j: Json, key: Seq<char>) -> Option<AssetStatus> {
    match sfield_str(j, key) {
        Some(s) => AssetStatus::of_wire(s),
        None => None,
    }
}

/// One reported trade.  Timestamps stay in their wire form, RFC 3339 text.
#[derive(Clone, Debug, PartialEq)]
pub struct TradeData {
    /// Trade identifier.
    pub trade_id: i64,
    /// Exchange where the trade occurred.
    pub exchange_code: Exchange,
    /// Trade price.
    pub trade_price: Decimal,
    /// Trade size.
    pub trade_size: u64,
    /// RFC 3339 timestamp, as transmitted.
    pub timestamp: String,
    /// Condition codes, as the reporting feed defines them.
    pub conditions: Vec<String>,
    /// Tape.
    pub tape: String,
}

/// Whether `j` carries every field of a trade.
pub open spec fn trade_ok(j: Json) -> bool {
    &&& sfield_i64(j, "i"@) is Some
    &&& sfield_exchange(j, "x"@) is Some
    &&& sfield_dec(j, "p"@) is Some
    &&& sfield_u64(j, "s"@) is Some
    &&& sfield_str(j, "t"@) is Some
    &&& sfield_str_list(j, "c"@) is Some
    &&& sfield_str(j, "z"@) is Some
}

/// How a decoded trade mirrors its document.
pub open spec fn trade_rel(j: Json, t: TradeData) -> bool {
    &&& sfield_i64(j, "i"@) == Some(t.trade_id)
    &&& sfield_exchange(j, "x"@) == Some(t.exchange_code)
    &&& sfield_dec(j, "p"@) == Some(t.trade_price)
    &&& sfield_u64(j, "s"@) == Some(t.trade_size)
    &&& sfield_str(j, "t"@) == Some(t.timestamp@)
    &&& sfield_str_list(j, "c"@) == Some(strs_view(t.conditions@))
    &&& sfield_str(j, "z"@) == Some(t.tape@)
}

/// Reads a trade out of a parsed document.
pub fn decode_trade(v: &JsonValue) -> (r: Option<TradeData>)
    ensures
        r is Some <==> trade_ok(v@),
        r matches Some(t) ==> trade_rel(v@, t),
{
    let trade_id = match get_i64(v, "i") {
        Some(x) => x,
        None => {
            return None;
        },
    };
    let ex = match get_str(v, "x") {
        Some(s) => s,
        None => {
            return None;
        },
    };
    let exchange_code = match Exchange::from_wire(ex.as_str()) {
        Some(e) => e,
        None => {
            return None;
        },
    };
    let trade_price = match get_dec(v, "p") {
        Some(d) => d,
        None => {
            return None;
        },
    };
    let trade_size = match get_u64(v, "s") {
        Some(x) => x,
        None => {
            return None;
        },
    };
    let timestamp = match get_str(v, "t") {
        Some(s) => s,
        None => {
            return None;
        },
    };
    let conditions = match get_str_list(v, "c") {
        Some(xs) => xs,
        None => {
            return None;
        },
    };
    let tape = match get_str(v, "z") {
        Some(s) => s,
        None => {
            return None;
        },
    };
    Some(TradeData { trade_id, exchange_code, trade_price, trade_size, timestamp, conditions, tape })
}

/// One reported quote.
#[derive(Clone, Debug, PartialEq)]
pub struct QuoteData {
    /// Ask exchange.
    pub ask_exchange: Exchange,
    /// Ask price.
    pub ask_price: Decimal,
    /// Ask size.
    pub ask_size: u64,
    /// Bid exchange.
    pub bid_exchange: Exchange,
    /// Bid price.
    pub bid_price: Decimal,
    /// Bid size.
    pub bid_size: u64,
    /// RFC 3339 timestamp, as transmitted.
    pub timestamp: String,
    /// Condition codes.
    pub conditions: Vec<String>,
    /// Tape.
    pub tape: String,
}

/// Whether `j` carries every field of a quote.
pub open spec fn quote_ok(j: Json) -> bool {
    &&& sfield_exchange(j, "ax"@) is Some
    &&& sfield_dec(j, "ap"@) is Some
    &&& sfield_u64(j, "as"@) is Some
    &&& sfield_exchange(j, "bx"@) is Some
    &&& sfield_dec(j, "bp"@) is Some
    &&& sfield_u64(j, "bs"@) is Some
    &&& sfield_str(j, "t"@) is Some
    &&& sfield_str_list(j, "c"@) is Some
    &&& sfield_str(j, "z"@) is Some
}

/// How a decoded quote mirrors its document.
pub open spec fn quote_rel(j: Json, q: QuoteData) -> bool {
    &&& sfield_exchange(j, "ax"@) == Some(q.ask_exchange)
    &&& sfield_dec(j, "ap"@) == Some(q.ask_price)
    &&& sfield_u64(j, "as"@) == Some(q.ask_size)
    &&& sfield_exchange(j, "bx"@) == Some(q.bid_exchange)
    &&& sfield_dec(j, "bp"@) == Some(q.bid_price)
    &&& sfield_u64(j, "bs"@) == Some(q.bid_size)
    &&& sfield_str(j, "t"@) == Some(q.timestamp@)
    &&& sfield_str_list(j, "c"@) == Some(strs_view(q.conditions@))
    &&& sfield_str(j, "z"@) == Some(q.tape@)
}

/// Reads a quote out of a parsed document.
pub fn decode_quote(v: &JsonValue) -> (r: Option<QuoteData>)
    ensures
        r is Some <==> quote_ok(v@),
        r matches Some(q) ==> quote_rel(v@, q),
{
    let ax = match get_str(v, "ax") {
        Some(s) => s,
        None => {
            return None;
        },
    };
    let ask_exchange = match Exchange::from_wire(ax.as_str()) {
        Some(e) => e,
        None => {
            return None;
        },
    };
    let ask_price = match get_dec(v, "ap") {
        Some(d) => d,
        None => {
            return None;
        },
    };
    let ask_size = match get_u64(v, "as") {
        Some(x) => x,
        None => {
            return None;
        },
    };
    let bx = match get_str(v, "bx") {
        Some(s) => s,
        None => {
            return None;
        },
    };
    let bid_exchange = match Exchange::from_wire(bx.as_str()) {
        Some(e) => e,
        None => {
            return None;
        },
    };
    let bid_price = match get_dec(v, "bp") {
        Some(d) => d,
        None => {
            return None;
        },
    };
    let bid_size = match get_u64(v, "bs") {
        Some(x) => x,
        None => {
            return None;
        },
    };
    let timestamp = match get_str(v, "t") {
        Some(s) => s,
        None => {
            return None;
        },
    };
    let conditions = match get_str_list(v, "c") {
        Some(xs) => xs,
        None => {
            return None;
        },
    };
    let tape = match get_str(v, "z") {
        Some(s) => s,
        None => {
            return None;
        },
    };
    Some(
        QuoteData {
            ask_exchange,
            ask_price,
            ask_size,
            bid_exchange,
            bid_price,
            bid_size,
            timestamp,
            conditions,
            tape,
        },
    )
}

/// One aggregated bar (open, high, low, close and volume).
#[derive(Clone, Debug, PartialEq)]
pub struct BarData {
    /// Open price.
    pub open_price: Decimal,
    /// High price.
    pub high_price: Decimal,
    /// Low price.
    pub low_price: Decimal,
    /// Close price.
    pub close_price: Decimal,
    /// Volume.
    pub volume: u64,
    /// RFC 3339 timestamp, as transmitted.
    pub timestamp: String,
}

/// Whether `j` carries every field of a bar.
pub open spec fn bar_ok(j: Json) -> bool {
    &&& sfield_dec(j, "o"@) is Some
    &&& sfield_dec(j, "h"@) is Some
    &&& sfield_dec(j, "l"@) is Some
    &&& sfield_dec(j, "c"@) is Some
    &&& sfield_u64(j, "v"@) is Some
    &&& sfield_str(j, "t"@) is Some
}

/// How a decoded bar mirrors its document.
pub open spec fn bar_rel(j: Json, b: BarData) -> bool {
    &&& sfield_dec(j, "o"@) == Some(b.open_price)
    &&& sfield_dec(j, "h"@) == Some(b.high_price)
    &&& sfield_dec(j, "l"@) == Some(b.low_price)
    &&& sfield_dec(j, "c"@) == Some(b.close_price)
    &&& sfield_u64(j, "v"@) == Some(b.volume)
    &&& sfield_str(j, "t"@) == Some(b.timestamp@)
}

/// Reads a bar out of a parsed document.
pub fn decode_bar(v: &JsonValue) -> (r: Option<BarData>)
    ensures
        r is Some <==> bar_ok(v@),
        r matches Some(b) ==> bar_rel(v@, b),
{
    let open_price = match get_dec(v, "o") {
        Some(d) => d,
        None => {
            return None;
        },
    };
    let high_price = match get_dec(v, "h") {
        Some(d) => d,
        None => {
            return None;
        },
    };
    let low_price = match get_dec(v, "l") {
        Some(d) => d,
        None => {
            return None;
        },
    };
    let close_price = match get_dec(v, "c") {
        Some(d) => d,
        None => {
            return None;
        },
    };
    let volume = match get_u64(v, "v") {
        Some(x) => x,
        None => {
            return None;
        },
    };
    let timestamp = match get_str(v, "t") {
        Some(s) => s,
        None => {
            return None;
        },
    };
    Some(BarData { open_price, high_price, low_price, close_price, volume, timestamp })
}

/// One tradable (or data-only) asset.
#[derive(Clone, Debug, PartialEq)]
pub struct AssetData {
    /// Asset identifier.
    pub id: String,
    /// Asset class, such as `us_equity`.
    pub class: String,
    /// Exchange name.
    pub exchange: String,
    /// Symbol.
    pub symbol: String,
    /// Whether the asset is active.
    pub status: AssetStatus,
    /// Whether the asset is tradable here.
    pub tradable: bool,
    /// Whether the asset is marginable.
    pub marginable: bool,
    /// Whether the asset is shortable.
    pub shortable: bool,
    /// Whether the asset is easy to borrow.
    pub easy_to_borrow: bool,
    /// Whether the asset is fractionable.
    pub fractionable: bool,
}

/// Whether `j` carries every field of an asset.  The five capability flags
/// fall back to `false` when absent.
pub open spec fn asset_ok(j: Json) -> bool {
    &&& sfield_str(j, "id"@) is Some
    &&& sfield_str(j, "class"@) is Some
    &&& sfield_str(j, "exchange"@) is Some
    &&& sfield_str(j, "symbol"@) is Some
    &&& sfield_asset_status(j, "status"@) is Some
    &&& sfield_bool_or(j, "tradable"@, false) is Some
    &&& sfield_bool_or(j, "marginable"@, false) is Some
    &&& sfield_bool_or(j, "shortable"@, false) is Some
    &&& sfield_bool_or(j, "easy_to_borrow"@, false) is Some
    &&& sfield_bool_or(j, "fractionable"@, false) is Some
}

/// How a decoded asset mirrors its document.
pub open spec fn asset_rel(j: Json, a: AssetData) -> bool {
    &&& sfield_str(j, "id"@) == Some(a.id@)
    &&& sfield_str(j, "class"@) == Some(a.class@)
    &&& sfield_str(j, "exchange"@) == Some(a.exchange@)
    &&& sfield_str(j, "symbol"@) == Some(a.symbol@)
    &&& sfield_asset_status(j, "status"@) == Some(a.status)
    &&& sfield_bool_or(j, "tradable"@, false) == Some(a.tradable)
    &&& sfield_bool_or(j, "marginable"@, false) == Some(a.marginable)
    &&& sfield_bool_or(j, "shortable"@, false) == Some(a.shortable)
    &&& sfield_bool_or(j, "easy_to_borrow"@, false) == Some(a.easy_to_borrow)
    &&& sfield_bool_or(j, "fractionable"@, false) == Some(a.fractionable)
}

/// Reads an asset out of a parsed document.
pub fn decode_asset(v: &JsonValue) -> (r: Option<AssetData>)
    ensures
        r is Some <==> asset_ok(v@),
        r matches Some(a) ==> asset_rel(v@, a),
{
    let id = match get_str(v, "id") {
        Some(s) => s,
        None => {
            return None;
        },
    };
    let class = match get_str(v, "class") {
        Some(s) => s,
        None => {
            return None;
        },
    };
    let exchange = match get_str(v, "exchange") {
        Some(s) => s,
        None => {
            return None;
        },
    };
    let symbol = match get_str(v, "symbol") {
        Some(s) => s,
        None => {
            return None;
        },
    };
    let st = match get_str(v, "status") {
        Some(s) => s,
        None => {
            return None;
        },
    };
    let status = match AssetStatus::from_wire(st.as_str()) {
        Some(s) => s,
        None => {
            return None;
        },
    };
    let tradable = match get_bool_or(v, "tradable", false) {
        Some(b) => b,
        None => {
            return None;
        },
    };
    let marginable = match get_bool_or(v, "marginable", false) {
        Some(b) => b,
        None => {
            return None;
        },
    };
    let shortable = match get_bool_or(v, "shortable", false) {
        Some(b) => b,
        None => {
            return None;
        },
    };
    let easy_to_borrow = match get_bool_or(v, "easy_to_borrow", false) {
        Some(b) => b,
        None => {
            return None;
        },
    };
    let fractionable = match get_bool_or(v, "fractionable", false) {
        Some(b) => b,
        None => {
            return None;
        },
    };
    Some(
        AssetData {
            id,
            class,
            exchange,
            symbol,
            status,
            tradable,
            marginable,
            shortable,
            easy_to_borrow,
            fractionable,
        },
    )
}

/// One watchlist: a named, ordered list of assets.
#[derive(Clone, Debug, PartialEq)]
pub struct WatchlistData {
    /// Watchlist identifier.
    pub id: String,
    /// User-defined name, up to sixty-four characters.
    pub name: String,
    /// Account identifier.
    pub account_id: String,
    /// RFC 3339 creation time, as transmitted.
    pub created_at: String,
    /// RFC 3339 time of the last update, as transmitted.
    pub updated_at: String,
    /// The content, in the order the client registered it.
    pub assets: Vec<AssetData>,
}

/// Whether every element of `es` carries an asset.
pub open spec fn assets_all_ok(es: Seq<Json>) -> bool {
    forall|k: int| 0 <= k < es.len() ==> asset_ok(#[trigger] es[k])
}

/// Whether `j` carries every field of a watchlist.  An absent or `null`
/// asset list reads as empty.
pub open spec fn watchlist_ok(j: Json) -> bool {
    &&& sfield_str(j, "id"@) is Some
    &&& sfield_str(j, "name"@) is Some
    &&& sfield_str(j, "account_id"@) is Some
    &&& sfield_str(j, "created_at"@) is Some
    &&& sfield_str(j, "updated_at"@) is Some
    &&& match crate::utils::sget(j, "assets"@) {
        None => true,
        Some(Json::Null) => true,
        Some(Json::Arr(es)) => assets_all_ok(es),
        Some(_) => false,
    }
}

/// How a decoded watchlist mirrors its document.
pub open spec fn watchlist_rel(j: Json, w: WatchlistData) -> bool {
    &&& sfield_str(j, "id"@) == Some(w.id@)
    &&& sfield_str(j, "name"@) == Some(w.name@)
    &&& sfield_str(j, "account_id"@) == Some(w.account_id@)
    &&& sfield_str(j, "created_at"@) == Some(w.created_at@)
    &&& sfield_str(j, "updated_at"@) == Some(w.updated_at@)
    &&& match crate::utils::sget(j, "assets"@) {
        None => w.assets@.len() == 0,
        Some(Json::Null) => w.assets@.len() == 0,
        Some(Json::Arr(es)) => w.assets@.len() == es.len() && (forall|k: int|
            0 <= k < es.len() ==> asset_rel(#[trigger] es[k], w.assets@[k])),
        Some(_) => false,
    }
}

/// Reads a watchlist out of a parsed document.
pub fn decode_watchlist(v: &JsonValue) -> (r: Option<WatchlistData>)
    ensures
        r is Some <==> watchlist_ok(v@),
        r matches Some(w) ==> watchlist_rel(v@, w),
{
    let id = match get_str(v, "id") {
        Some(s) => s,
        None => {
            return None;
        },
    };
    let name = match get_str(v, "name") {
        Some(s) => s,
        None => {
            return None;
        },
    };
    let account_id = match get_str(v, "account_id") {
        Some(s) => s,
        None => {
            return None;
        },
    };
    let created_at = match get_str(v, "created_at") {
        Some(s) => s,
        None => {
            return None;
        },
    };
    let updated_at = match get_str(v, "updated_at") {
        Some(s) => s,
        None => {
            return None;
        },
    };
    let assets = match v.get("assets") {
        None => Vec::new(),
        Some(f) => match f {
            JsonValue::Null => Vec::new(),
            JsonValue::Arr(es) => {
                proof {
                    crate::json::lemma_view_list(es@);
                }
                let n = es.len();
                let mut out: Vec<AssetData> = Vec::new();
                let mut i: usize = 0;
                while i < n
                    invariant
                        i <= n,
                        n == es@.len(),
                        out@.len() == i,
                        crate::utils::sget(v@, "assets"@) == Some(
                            Json::Arr(crate::json::view_list(es@)),
                        ),
                        crate::json::view_list(es@).len() == n,
                        forall|k: int|
                            0 <= k < n ==> crate::json::view_list(es@)[k] == es@[k]@,
                        forall|k: int|
                            0 <= k < i ==> asset_ok(#[trigger] crate::json::view_list(es@)[k]),
                        forall|k: int|
                            0 <= k < i ==> asset_rel(
                                #[trigger] crate::json::view_list(es@)[k],
                                out@[k],
                            ),
                    decreases n - i,
                {
                    match decode_asset(&es[i]) {
                        Some(a) => {
                            out.push(a);
                        },
                        None => {
                            proof {
                                let esv = crate::json::view_list(es@);
                                assert(esv[i as int] == es@[i as int]@);
                                assert(!asset_ok(esv[i as int]));
                                assert(!assets_all_ok(esv));
                            }
                            return None;
                        },
                    }
                    i = i + 1;
                }
                out
            },
            _ => {
                return None;
            },
        },
    };
    Some(WatchlistData { id, name, account_id, created_at, updated_at, assets })
}

/// The description of one open position.
#[derive(Clone, Debug, PartialEq)]
pub struct PositionData {
    /// Asset identifier.
    pub asset_id: String,
    /// Symbol.
    pub symbol: String,
    /// Exchange name.
    pub exchange: String,
    /// Asset class name.
    pub asset_class: String,
    /// Average entry price.
    pub avg_entry_price: Decimal,
    /// Number of shares.
    pub qty: Decimal,
    /// Long or short.
    pub side: PositionSide,
    /// Total dollar amount.
    pub market_value: Decimal,
    /// Total cost basis in dollars.
    pub cost_basis: Decimal,
    /// Unrealised profit or loss in dollars.
    pub unrealized_pl: Decimal,
    /// Unrealised profit or loss as a factor of one.
    pub unrealized_plpc: Decimal,
    /// Unrealised intraday profit or loss in dollars.
    pub unrealized_intraday_pl: Decimal,
    /// Unrealised intraday profit or loss as a factor of one.
    pub unrealized_intraday_plpc: Decimal,
    /// Current price per share.
    pub current_price: Decimal,
    /// Last trading day's closing price per share.
    pub lastday_price: Decimal,
    /// Change since the last day's price, as a factor of one.
    pub change_today: Decimal,
}

/// Whether `j` carries every field of a position.
pub open spec fn position_ok(j: Json) -> bool {
    &&& sfield_str(j, "asset_id"@) is Some
    &&& sfield_str(j, "symbol"@) is Some
    &&& sfield_str(j, "exchange"@) is Some
    &&& sfield_str(j, "asset_class"@) is Some
    &&& sfield_dec(j, "avg_entry_price"@) is Some
    &&& sfield_dec(j, "qty"@) is Some
    &&& sfield_position_side(j, "side"@) is Some
    &&& sfield_dec(j, "market_value"@) is Some
    &&& sfield_dec(j, "cost_basis"@) is Some
    &&& sfield_dec(j, "unrealized_pl"@) is Some
    &&& sfield_dec(j, "unrealized_plpc"@) is Some
    &&& sfield_dec(j, "unrealized_intraday_pl"@) is Some
    &&& sfield_dec(j, "unrealized_intraday_plpc"@) is Some
    &&& sfield_dec(j, "current_price"@) is Some
    &&& sfield_dec(j, "lastday_price"@) is Some
    &&& sfield_dec(j, "change_today"@) is Some
}

/// How a decoded position mirrors its document.
pub open spec fn position_rel(j: Json, p: PositionData) -> bool {
    &&& sfield_str(j, "asset_id"@) == Some(p.asset_id@)
    &&& sfield_str(j, "symbol"@) == Some(p.symbol@)
    &&& sfield_str(j, "exchange"@) == Some(p.exchange@)
    &&& sfield_str(j, "asset_class"@) == Some(p.asset_class@)
    &&& sfield_dec(j, "avg_entry_price"@) == Some(p.avg_entry_price)
    &&& sfield_dec(j, "qty"@) == Some(p.qty)
    &&& sfield_position_side(j, "side"@) == Some(p.side)
    &&& sfield_dec(j, "market_value"@) == Some(p.market_value)
    &&& sfield_dec(j, "cost_basis"@) == Some(p.cost_basis)
    &&& sfield_dec(j, "unrealized_pl"@) == Some(p.unrealized_pl)
    &&& sfield_dec(j, "unrealized_plpc"@) == Some(p.unrealized_plpc)
    &&& sfield_dec(j, "unrealized_intraday_pl"@) == Some(p.unrealized_intraday_pl)
    &&& sfield_dec(j, "unrealized_intraday_plpc"@) == Some(p.unrealized_intraday_plpc)
    &&& sfield_dec(j, "current_price"@) == Some(p.current_price)
    &&& sfield_dec(j, "lastday_price"@) == Some(p.lastday_price)
    &&& sfield_dec(j, "change_today"@) == Some(p.change_today)
}

/// Reads a position out of a parsed document.
pub fn decode_position(v: &JsonValue) -> (r: Option<PositionData>)
    ensures
        r is Some <==> position_ok(v@),
        r matches Some(p) ==> position_rel(v@, p),
{
    let asset_id = match get_str(v, "asset_id") {
        Some(s) => s,
        None => {
            return None;
        },
    };
    let symbol = match get_str(v, "symbol") {
        Some(s) => s,
        None => {
            return None;
        },
    };
    let exchange = match get_str(v, "exchange") {
        Some(s) => s,
        None => {
            return None;
        },
    };
    let asset_class = match get_str(v, "asset_class") {
        Some(s) => s,
        None => {
            return None;
        },
    };
    let avg_entry_price = match get_dec(v, "avg_entry_price") {
        Some(d) => d,
        None => {
            return None;
        },
    };
    let qty = match get_dec(v, "qty") {
        Some(d) => d,
        None => {
            return None;
        },
    };
    let sd = match get_str(v, "side") {
        Some(s) => s,
        None => {
            return None;
        },
    };
    let side = match PositionSide::from_wire(sd.as_str()) {
        Some(s) => s,
        None => {
            return None;
        },
    };
    let market_value = match get_dec(v, "market_value") {
        Some(d) => d,
        None => {
            return None;
        },
    };
    let cost_basis = match get_dec(v, "cost_basis") {
        Some(d) => d,
        None => {
            return None;
        },
    };
    let unrealized_pl = match get_dec(v, "unrealized_pl") {
        Some(d) => d,
        None => {
            return None;
        },
    };
    let unrealized_plpc = match get_dec(v, "unrealized_plpc") {
        Some(d) => d,
        None => {
            return None;
        },
    };
    let unrealized_intraday_pl = match get_dec(v, "unrealized_intraday_pl") {
        Some(d) => d,
        None => {
            return None;
        },
    };
    let unrealized_intraday_plpc = match get_dec(v, "unrealized_intraday_plpc") {
        Some(d) => d,
        None => {
            return None;
        },
    };
    let current_price = match get_dec(v, "current_price") {
        Some(d) => d,
        None => {
            return None;
        },
    };
    let lastday_price = match get_dec(v, "lastday_price") {
        Some(d) => d,
        None => {
            return None;
        },
    };
    let change_today = match get_dec(v, "change_today") {
        Some(d) => d,
        None => {
            return None;
        },
    };
    Some(
        PositionData {
            asset_id,
            symbol,
            exchange,
            asset_class,
            avg_entry_price,
            qty,
            side,
            market_value,
            cost_basis,
            unrealized_pl,
            unrealized_plpc,
            unrealized_intraday_pl,
            unrealized_intraday_plpc,
            current_price,
            lastday_price,
            change_today,
        },
    )
}

/// Word on the fate of one cancellation request.
#[derive(Clone, Debug, PartialEq)]
pub struct CancellationData {
    /// The order whose cancellation was requested.
    pub id: String,
    /// How the request fared.
    pub status: CancelationStatus,
}

/// Whether `j` carries a cancellation notice.
pub open spec fn cancellation_ok(j: Json) -> bool {
    &&& sfield_str(j, "id"@) is Some
    &&& match sfield_u64(j, "status"@) {
        Some(c) => c <= u16::MAX && CancelationStatus::of_code(c as u16) is Some,
        None => false,
    }
}

/// How a decoded cancellation notice mirrors its document.
pub open spec fn cancellation_rel(j: Json, c: CancellationData) -> bool {
    &&& sfield_str(j, "id"@) == Some(c.id@)
    &&& sfield_u64(j, "status"@) matches Some(code) && CancelationStatus::of_code(code as u16)
        == Some(c.status)
}

/// Reads a cancellation notice out of a parsed document.
pub fn decode_cancellation(v: &JsonValue) -> (r: Option<CancellationData>)
    ensures
        r is Some <==> cancellation_ok(v@),
        r matches Some(c) ==> cancellation_rel(v@, c),
{
    let id = match get_str(v, "id") {
        Some(s) => s,
        None => {
            return None;
        },
    };
    let code = match get_u64(v, "status") {
        Some(c) => c,
        None => {
            return None;
        },
    };
    if code > u16::MAX as u64 {
        return None;
    }
    let status = match CancelationStatus::from_code(code as u16) {
        Some(s) => s,
        None => {
            return None;
        },
    };
    Some(CancellationData { id, status })
}

/// Word on the fate of one position closure.
#[derive(Clone, Debug, PartialEq)]
pub struct ClosureData {
    /// The symbol whose position is being closed.
    pub symbol: String,
    /// How the closure fared.
    pub status: ClosureStatus,
}

/// Whether `j` carries a closure notice.
pub open spec fn closure_ok(j: Json) -> bool {
    &&& sfield_str(j, "symbol"@) is Some
    &&& match sfield_u64(j, "status"@) {
        Some(c) => c <= u16::MAX && ClosureStatus::of_code(c as u16) is Some,
        None => false,
    }
}

/// How a decoded closure notice mirrors its document.
pub open spec fn closure_rel(j: Json, c: ClosureData) -> bool {
    &&& sfield_str(j, "symbol"@) == Some(c.symbol@)
    &&& sfield_u64(j, "status"@) matches Some(code) && ClosureStatus::of_code(code as u16) == Some(
        c.status,
    )
}

/// Reads a closure notice out of a parsed document.
pub fn decode_closure(v: &JsonValue) -> (r: Option<ClosureData>)
    ensures
        r is Some <==> closure_ok(v@),
        r matches Some(c) ==> closure_rel(v@, c),
{
    let symbol = match get_str(v, "symbol") {
        Some(s) => s,
        None => {
            return None;
        },
    };
    let code = match get_u64(v, "status") {
        Some(c) => c,
        None => {
            return None;
        },
    };
    if code > u16::MAX as u64 {
        return None;
    }
    let status = match ClosureStatus::from_code(code as u16) {
        Some(s) => s,
        None => {
            return None;
        },
    };
    Some(ClosureData { symbol, status })
}

/// One order, as the REST API and the order-update stream both report it.
///
/// Timestamps stay in their RFC 3339 wire form.  The `legs` of a
/// non-simple order are kept as their parsed documents; read one with
/// [`decode_order`].
pub struct OrderData {
    /// Order identifier.
    pub id: String,
    /// Client-chosen order identifier.
    pub client_order_id: String,
    /// When the order was created.
    pub created_at: String,
    /// When the order was last updated.
    pub updated_at: Option<String>,
    /// When the order was submitted.
    pub submitted_at: Option<String>,
    /// When the order was filled.
    pub filled_at: Option<String>,
    /// When the order expired.
    pub expired_at: Option<String>,
    /// When the order was canceled.
    pub canceled_at: Option<String>,
    /// When the order failed.
    pub failed_at: Option<String>,
    /// When the order was replaced.
    pub replaced_at: Option<String>,
    /// The order that replaced this one.
    pub replaced_by: Option<String>,
    /// The order this one replaces.
    pub replaces: Option<String>,
    /// Asset identifier.
    pub asset_id: String,
    /// Asset symbol.
    pub symbol: String,
    /// Asset class.
    pub asset_class: String,
    /// Ordered notional amount; if given, `qty` is absent.
    pub notional: Option<Decimal>,
    /// Ordered quantity; if given, `notional` is absent.
    pub qty: Option<Decimal>,
    /// Filled quantity.
    pub filled_qty: Decimal,
    /// Filled average price.
    pub filled_avg_price: Option<Decimal>,
    /// How this order relates to others placed with it.
    pub order_class: OrderClass,
    /// How the price is determined.
    pub order_type: OrderType,
    /// Buy or sell.
    pub side: OrderSide,
    /// How long the order stays eligible.
    pub time_in_force: TimeInForce,
    /// Limit price.
    pub limit_price: Option<Decimal>,
    /// Stop price.
    pub stop_price: Option<Decimal>,
    /// Where the order stands in its lifecycle.
    pub status: OrderStatus,
    /// Whether the order may execute outside regular trading hours.
    pub extended_hours: bool,
    /// The other orders placed with this one, as parsed documents.
    pub legs: Option<Vec<JsonValue>>,
    /// Percent offset from the high-water mark, for trailing stops.
    pub trail_percent: Option<Decimal>,
    /// Dollar offset from the high-water mark, for trailing stops.
    pub trail_price: Option<Decimal>,
    /// The most advanced market price seen since a trailing stop was
    /// submitted.
    pub hwm: Option<Decimal>,
}

/// Whether `j` carries every field of an order.
pub open spec fn order_ok(j: Json) -> bool {
    &&& sfield_str(j, "id"@) is Some
    &&& sfield_str(j, "client_order_id"@) is Some
    &&& sfield_str(j, "created_at"@) is Some
    &&& sfield_opt_str(j, "updated_at"@) is Some
    &&& sfield_opt_str(j, "submitted_at"@) is Some
    &&& sfield_opt_str(j, "filled_at"@) is Some
    &&& sfield_opt_str(j, "expired_at"@) is Some
    &&& sfield_opt_str(j, "canceled_at"@) is Some
    &&& sfield_opt_str(j, "failed_at"@) is Some
    &&& sfield_opt_str(j, "replaced_at"@) is Some
    &&& sfield_opt_str(j, "replaced_by"@) is Some
    &&& sfield_opt_str(j, "replaces"@) is Some
    &&& sfield_str(j, "asset_id"@) is Some
    &&& sfield_str(j, "symbol"@) is Some
    &&& sfield_str(j, "asset_class"@) is Some
    &&& sfield_opt_dec(j, "notional"@) is Some
    &&& sfield_opt_dec(j, "qty"@) is Some
    &&& sfield_dec(j, "filled_qty"@) is Some
    &&& sfield_opt_dec(j, "filled_avg_price"@) is Some
    &&& sfield_order_class(j, "order_class"@) is Some
    &&& sfield_order_type(j, "type"@) is Some
    &&& sfield_order_side(j, "side"@) is Some
    &&& sfield_tif(j, "time_in_force"@) is Some
    &&& sfield_opt_dec(j, "limit_price"@) is Some
    &&& sfield_opt_dec(j, "stop_price"@) is Some
    &&& sfield_order_status(j, "status"@) is Some
    &&& sfield_bool(j, "extended_hours"@) is Some
    &&& match crate::utils::sget(j, "legs"@) {
        None => true,
        Some(Json::Null) => true,
        Some(Json::Arr(es)) => true,
        Some(_) => false,
    }
    &&& sfield_opt_dec(j, "trail_percent"@) is Some
    &&& sfield_opt_dec(j, "trail_price"@) is Some
    &&& sfield_opt_dec(j, "hwm"@) is Some
}

/// How a decoded order mirrors its document.
pub open spec fn order_rel(j: Json, t: OrderData) -> bool {
    &&& sfield_str(j, "id"@) == Some(t.id@)
    &&& sfield_str(j, "client_order_id"@) == Some(t.client_order_id@)
    &&& sfield_str(j, "created_at"@) == Some(t.created_at@)
    &&& sfield_opt_str(j, "updated_at"@) == Some(crate::utils::view_opt_str(t.updated_at))
    &&& sfield_opt_str(j, "submitted_at"@) == Some(crate::utils::view_opt_str(t.submitted_at))
    &&& sfield_opt_str(j, "filled_at"@) == Some(crate::utils::view_opt_str(t.filled_at))
    &&& sfield_opt_str(j, "expired_at"@) == Some(crate::utils::view_opt_str(t.expired_at))
    &&& sfield_opt_str(j, "canceled_at"@) == Some(crate::utils::view_opt_str(t.canceled_at))
    &&& sfield_opt_str(j, "failed_at"@) == Some(crate::utils::view_opt_str(t.failed_at))
    &&& sfield_opt_str(j, "replaced_at"@) == Some(crate::utils::view_opt_str(t.replaced_at))
    &&& sfield_opt_str(j, "replaced_by"@) == Some(crate::utils::view_opt_str(t.replaced_by))
    &&& sfield_opt_str(j, "replaces"@) == Some(crate::utils::view_opt_str(t.replaces))
    &&& sfield_str(j, "asset_id"@) == Some(t.asset_id@)
    &&& sfield_str(j, "symbol"@) == Some(t.symbol@)
    &&& sfield_str(j, "asset_class"@) == Some(t.asset_class@)
    &&& sfield_opt_dec(j, "notional"@) == Some(t.notional)
    &&& sfield_opt_dec(j, "qty"@) == Some(t.qty)
    &&& sfield_dec(j, "filled_qty"@) == Some(t.filled_qty)
    &&& sfield_opt_dec(j, "filled_avg_price"@) == Some(t.filled_avg_price)
    &&& sfield_order_class(j, "order_class"@) == Some(t.order_class)
    &&& sfield_order_type(j, "type"@) == Some(t.order_type)
    &&& sfield_order_side(j, "side"@) == Some(t.side)
    &&& sfield_tif(j, "time_in_force"@) == Some(t.time_in_force)
    &&& sfield_opt_dec(j, "limit_price"@) == Some(t.limit_price)
    &&& sfield_opt_dec(j, "stop_price"@) == Some(t.stop_price)
    &&& sfield_order_status(j, "status"@) == Some(t.status)
    &&& sfield_bool(j, "extended_hours"@) == Some(t.extended_hours)
    &&& match crate::utils::sget(j, "legs"@) {
        None => t.legs is None,
        Some(Json::Null) => t.legs is None,
        Some(Json::Arr(es)) => t.legs matches Some(lv) && crate::json::view_list(lv@) == es,
        Some(_) => false,
    }
    &&& sfield_opt_dec(j, "trail_percent"@) == Some(t.trail_percent)
    &&& sfield_opt_dec(j, "trail_price"@) == Some(t.trail_price)
    &&& sfield_opt_dec(j, "hwm"@) == Some(t.hwm)
}

/// Reads an order out of a parsed document.
pub fn decode_order(v: &JsonValue) -> (r: Option<OrderData>)
    ensures
        r is Some <==> order_ok(v@),
        r matches Some(t) ==> order_rel(v@, t),
{
    let id = match get_str(v, "id") {
        Some(s) => s,
        None => {
            return None;
        },
    };
    let client_order_id = match get_str(v, "client_order_id") {
        Some(s) => s,
        None => {
            return None;
        },
    };
    let created_at = match get_str(v, "created_at") {
        Some(s) => s,
        None => {
            return None;
        },
    };
    let updated_at = match get_opt_str(v, "updated_at") {
        Some(o) => o,
        None => {
            return None;
        },
    };
    let submitted_at = match get_opt_str(v, "submitted_at") {
        Some(o) => o,
        None => {
            return None;
        },
    };
    let filled_at = match get_opt_str(v, "filled_at") {
        Some(o) => o,
        None => {
            return None;
        },
    };
    let expired_at = match get_opt_str(v, "expired_at") {
        Some(o) => o,
        None => {
            return None;
        },
    };
    let canceled_at = match get_opt_str(v, "canceled_at") {
        Some(o) => o,
        None => {
            return None;
        },
    };
    let failed_at = match get_opt_str(v, "failed_at") {
        Some(o) => o,
        None => {
            return None;
        },
    };
    let replaced_at = match get_opt_str(v, "replaced_at") {
        Some(o) => o,
        None => {
            return None;
        },
    };
    let replaced_by = match get_opt_str(v, "replaced_by") {
        Some(o) => o,
        None => {
            return None;
        },
    };
    let replaces = match get_opt_str(v, "replaces") {
        Some(o) => o,
        None => {
            return None;
        },
    };
    let asset_id = match get_str(v, "asset_id") {
        Some(s) => s,
        None => {
            return None;
        },
    };
    let symbol = match get_str(v, "symbol") {
        Some(s) => s,
        None => {
            return None;
        },
    };
    let asset_class = match get_str(v, "asset_class") {
        Some(s) => s,
        None => {
            return None;
        },
    };
    let notional = match get_opt_dec(v, "notional") {
        Some(o) => o,
        None => {
            return None;
        },
    };
    let qty = match get_opt_dec(v, "qty") {
        Some(o) => o,
        None => {
            return None;
        },
    };
    let filled_qty = match get_dec(v, "filled_qty") {
        Some(d) => d,
        None => {
            return None;
        },
    };
    let filled_avg_price = match get_opt_dec(v, "filled_avg_price") {
        Some(o) => o,
        None => {
            return None;
        },
    };
    let oc = match get_str(v, "order_class") {
        Some(s) => s,
        None => {
            return None;
        },
    };
    let order_class = match OrderClass::from_wire(oc.as_str()) {
        Some(x) => x,
        None => {
            return None;
        },
    };
    let ot = match get_str(v, "type") {
        Some(s) => s,
        None => {
            return None;
        },
    };
    let order_type = match OrderType::from_wire(ot.as_str()) {
        Some(x) => x,
        None => {
            return None;
        },
    };
    let sd = match get_str(v, "side") {
        Some(s) => s,
        None => {
            return None;
        },
    };
    let side = match OrderSide::from_wire(sd.as_str()) {
        Some(x) => x,
        None => {
            return None;
        },
    };
    let tf = match get_str(v, "time_in_force") {
        Some(s) => s,
        None => {
            return None;
        },
    };
    let time_in_force = match TimeInForce::from_wire(tf.as_str()) {
        Some(x) => x,
        None => {
            return None;
        },
    };
    let limit_price = match get_opt_dec(v, "limit_price") {
        Some(o) => o,
        None => {
            return None;
        },
    };
    let stop_price = match get_opt_dec(v, "stop_price") {
        Some(o) => o,
        None => {
            return None;
        },
    };
    let st = match get_str(v, "status") {
        Some(s) => s,
        None => {
            return None;
        },
    };
    let status = match OrderStatus::from_wire(st.as_str()) {
        Some(x) => x,
        None => {
            return None;
        },
    };
    let extended_hours = match get_bool(v, "extended_hours") {
        Some(b) => b,
        None => {
            return None;
        },
    };
    let legs = match v.get("legs") {
        None => None,
        Some(f) => match f {
            JsonValue::Null => None,
            JsonValue::Arr(es) => {
                let n = es.len();
                let mut out: Vec<JsonValue> = Vec::new();
                let mut i: usize = 0;
                while i < n
                    invariant
                        i <= n,
                        n == es@.len(),
                        out@.len() == i,
                        forall|k: int| 0 <= k < i ==> out@[k]@ == es@[k]@,
                    decreases n - i,
                {
                    let c = es[i].duplicate();
                    out.push(c);
                    i = i + 1;
                }
                proof {
                    crate::json::lemma_view_list(out@);
                    crate::json::lemma_view_list(es@);
                    assert(crate::json::view_list(out@) =~= crate::json::view_list(es@));
                }
                Some(out)
            },
            _ => {
                return None;
            },
        },
    };
    let trail_percent = match get_opt_dec(v, "trail_percent") {
        Some(o) => o,
        None => {
            return None;
        },
    };
    let trail_price = match get_opt_dec(v, "trail_price") {
        Some(o) => o,
        None => {
            return None;
        },
    };
    let hwm = match get_opt_dec(v, "hwm") {
        Some(o) => o,
        None => {
            return None;
        },
    };
    Some(
        OrderData {
            id,
            client_order_id,
            created_at,
            updated_at,
            submitted_at,
            filled_at,
            expired_at,
            canceled_at,
            failed_at,
            replaced_at,
            replaced_by,
            replaces,
            asset_id,
            symbol,
            asset_class,
            notional,
            qty,
            filled_qty,
            filled_avg_price,
            order_class,
            order_type,
            side,
            time_in_force,
            limit_price,
            stop_price,
            status,
            extended_hours,
            legs,
            trail_percent,
            trail_price,
            hwm,
        },
    )
}

} // verus!
