use arbitrage::band::BandQuote;
use arbitrage::dec::{Dec, DEC_UNIT};
use arbitrage::hedge::{hedge_signal, new_stable_trade, HedgeSignal};
use arbitrage::model::{
    direction_of, strategy_kind_of, ArbStableCoin, ArbStableCoinInfo, Direction, DoingStatus,
    RecordStatus, StableStrategy, TradeKind,
};

fn position() -> ArbStableCoin {
    ArbStableCoin {
        id: 11,
        user_id: 1,
        platform: "binance".to_string(),
        coin: "USDC".to_string(),
        market: "spot".to_string(),
        symbol: "USDCUSDT".to_string(),
        price_truncate: 4,
        amt_truncate: 2,
        strategy: StableStrategy::Band,
        option_open: Dec::zero(),
        option_close: Dec::zero(),
        option_amt: Dec::from_i64(100),
        fok_diff: Dec::zero(),
        doing_status: DoingStatus::Run,
    }
}

fn band(lower_units: i128, upper_units: i128) -> BandQuote {
    BandQuote { upper: Dec::from_units(upper_units), lower: Dec::from_units(lower_units) }
}

fn trade(kind: TradeKind, amount_units: i128) -> ArbStableCoinInfo {
    new_stable_trade(&position(), kind, Dec::from_units(99_900_000), Dec::from_units(
        amount_units), 31, 7)
}

#[test]
fn first_buy_below_par_and_lower_band() {
    // no prior trade, close 0.9990 < 1 and <= lower band 0.9995
    let pos = position();
    let close = Dec::from_units(99_900_000);
    let b = band(99_950_000, 100_050_000);
    match hedge_signal(&pos, &None, close, &b) {
        HedgeSignal::PlaceBuy { price, amount } => {
            assert_eq!(price.units, 99_900_000);
            assert_eq!(amount.units, 100 * DEC_UNIT);
        },
        other => panic!("expected a buy, got {:?}", other),
    }
    // the recorded trade row carries the buy label
    let row = new_stable_trade(&pos, TradeKind::Buy, close, Dec::from_i64(100), 31, 7);
    assert_eq!(row.option_type, TradeKind::Buy);
    assert_eq!(row.option_type.label(), "buy");
    assert_eq!(row.is_ok, RecordStatus::UnDone);
    assert_eq!(row.stable_coin_id, 11);
}

#[test]
fn buy_after_a_sell_reopens() {
    let pos = position();
    let close = Dec::from_units(99_900_000);
    let b = band(99_950_000, 100_050_000);
    let last = Some(trade(TradeKind::Sell, 100 * DEC_UNIT));
    assert!(matches!(hedge_signal(&pos, &last, close, &b), HedgeSignal::PlaceBuy { .. }));
}

#[test]
fn sell_at_upper_band_sized_to_open_buy() {
    let pos = position();
    let close = Dec::from_units(100_050_000);
    let b = band(99_950_000, 100_050_000);
    let last = Some(trade(TradeKind::Buy, 42 * DEC_UNIT));
    match hedge_signal(&pos, &last, close, &b) {
        HedgeSignal::PlaceSell { price, amount } => {
            assert_eq!(price.units, 100_050_000);
            assert_eq!(amount.units, 42 * DEC_UNIT);
            assert_eq!(TradeKind::Sell.label(), "sell");
        },
        other => panic!("expected a sell, got {:?}", other),
    }
}

#[test]
fn no_signal_between_the_bands() {
    let pos = position();
    let b = band(99_950_000, 100_050_000);
    // close below par but above the lower band: no buy
    let close = Dec::from_units(99_960_000);
    assert!(matches!(hedge_signal(&pos, &None, close, &b), HedgeSignal::Hold));
    // open buy, close under the upper band: no sell
    let last = Some(trade(TradeKind::Buy, 100 * DEC_UNIT));
    assert!(matches!(hedge_signal(&pos, &last, close, &b), HedgeSignal::Hold));
    // close at the lower band but at par: no buy
    let at_par = Dec::from_units(DEC_UNIT);
    let wide = band(DEC_UNIT, 2 * DEC_UNIT);
    assert!(matches!(hedge_signal(&pos, &None, at_par, &wide), HedgeSignal::Hold));
}

#[test]
fn stored_labels_decode() {
    assert_eq!(direction_of(&"positive".to_string()), Some(Direction::Positive));
    assert_eq!(direction_of(&"reverse".to_string()), Some(Direction::Reverse));
    assert_eq!(direction_of(&"sideways".to_string()), None);
    assert_eq!(strategy_kind_of(&"11".to_string()), Some(StableStrategy::Band));
    assert_eq!(strategy_kind_of(&"21".to_string()), Some(StableStrategy::Percentage));
    assert_eq!(strategy_kind_of(&"31".to_string()), Some(StableStrategy::FixedThreshold));
    assert_eq!(strategy_kind_of(&"41".to_string()), None);
}
