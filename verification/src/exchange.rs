//! Value types of the exchange interface.
//!
//! These are the shapes that the order/transfer collaborator takes and
//! returns.  They carry plain values only; the calls themselves are made
//! outside the library, which receives the results as arguments.

use vstd::prelude::*;

verus! {

#[derive(Clone, Copy, Debug, PartialEq, Eq, Structural)]
pub enum OrderSide {
    Buy,
    Sell,
}

/// By default, buy.
impl Default for OrderSide {
    fn default() -> (r: Self)
        ensures
            r == OrderSide::Buy,
    {
        OrderSide::Buy
    }
}

#[derive(Clone, Copy, Debug, PartialEq, Eq, Structural)]
pub enum OrderType {
    Limit,
    Market,
    StopLoss,
    StopLossLimit,
    TakeProfit,
    TakeProfitLimit,
    LimitMaker,
    Other,
}

/// By default, use market orders.
impl Default for OrderType {
    fn default() -> (r: Self)
        ensures
            r == OrderType::Market,
    {
        OrderType::Market
    }
}

/// How long an order stays alive.  The engine places fill-or-kill orders
/// only.
#[derive(Clone, Copy, Debug, PartialEq, Eq, Structural)]
pub enum TimeInForce {
    GTC,
    IOC,
    FOK,
    GTX,
    Other,
}

/// Status of an order as the exchange reports it.
#[derive(Clone, Copy, Debug, PartialEq, Eq, Structural)]
pub enum OrderStatus {
    New,
    PartiallyFilled,
    Filled,
    Canceled,
    PendingCancel,
    Rejected,
    Expired,
    ExpiredInMatch,
}

/// Kind of a universal transfer between wallet types.
#[derive(Clone, Copy, Debug, PartialEq, Eq, Structural)]
pub enum UniversalTransferType {
    MainUmfuture,
    MainCmfuture,
    MainMargin,
    UmfutureMain,
    UmFutureMargin,
    CmfutureMain,
    CmfutureMargin,
    MarginMain,
    MarginUmfuture,
    MarginCmfuture,
    IsolatedmarginMargin,
    MarginIsolatedmargin,
    IsolatedmarginIsolatedmargin,
    MainFunding,
    FundingMain,
    FundingUmfuture,
    UmfutureFunding,
    MarginFunding,
    FundingMargin,
    FundingCmfuture,
    CmfutureFunding,
}

/// Request shape for a spot order-status lookup.
#[derive(Clone, Debug)]
pub struct OrderStatusRequest {
    pub symbol: String,
    pub order_id: Option<u64>,
    pub orig_client_order_id: Option<String>,
    pub recv_window: Option<u64>,
}

/// Request shape for a futures or delivery order-status lookup.
#[derive(Clone, Debug)]
pub struct FuturesGetOrderRequest {
    pub symbol: String,
    pub order_id: Option<String>,
    pub orig_client_order_id: Option<String>,
}

/// Result of a universal transfer.
#[derive(Clone, Copy, Debug, PartialEq, Eq, Structural)]
pub struct TransactionId {
    pub tran_id: u64,
}

#[derive(Clone, Copy, Debug, PartialEq, Eq, Structural)]
pub struct ServerTime {
    pub server_time: u64,
}

/// One streamed mini-ticker: prices arrive as decimal strings.
#[derive(Clone, Debug)]
pub struct MiniDayTickerEvent {
    pub event_time: u64,
    pub symbol: String,
    pub pair: Option<String>,
    pub current_close: String,
    pub open: String,
    pub high: String,
    pub low: String,
    pub volume: String,
    pub quote_volume: String,
}

/// A batch of tickers from one market's stream.
#[derive(Clone, Debug)]
pub struct PriceStream {
    pub tickers: Vec<MiniDayTickerEvent>,
    pub market: String,
    pub local_time: i64,
}

/// A ticker as read back from the price cache.
#[derive(Clone, Debug)]
pub struct PriceInfo {
    pub ticker: MiniDayTickerEvent,
    pub market: String,
}

} // verus!
