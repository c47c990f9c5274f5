use arbitrage::dec::{Dec, DEC_UNIT};
use arbitrage::model::{ArbStrategy, Direction, DoingStatus, LegKind, MarketKind, StepStatus};
use arbitrage::plan::{build_plan, new_positive_desc, new_reverse_coinm_desc,
    new_reverse_usdm_desc};
use arbitrage::provision::provision_steps;

fn strategy(direction: Direction, from_market: MarketKind, to_market: MarketKind) -> ArbStrategy {
    ArbStrategy {
        id: 7,
        diff_rate_id: 3,
        user_id: 1,
        platform: "binance".to_string(),
        option_choose: direction,
        coin: "BTC".to_string(),
        from_market,
        from_symbol: "BTCUSDT".to_string(),
        from_price_truncate: 4,
        from_amt_truncate: 4,
        to_market,
        to_symbol: "BTCUSD_PERP".to_string(),
        to_price_truncate: 4,
        to_amt_truncate: 4,
        option_open: Dec::from_units(5_000_000),
        option_close: Dec::zero(),
        option_amt: Dec::from_i64(2),
        contract_mul: 10,
        margin_mul: 3,
        fok_diff: Dec::zero(),
        spot_fee: Dec::zero(),
        futures_fee: Dec::zero(),
        delivery_fee: Dec::zero(),
        doing_status: DoingStatus::Run,
    }
}

#[test]
fn positive_plan_has_six_ordered_legs() {
    let s = strategy(Direction::Positive, MarketKind::Spot, MarketKind::Delivery);
    let ds = new_positive_desc(&s);
    assert_eq!(ds.len(), 6);
    let kinds: Vec<LegKind> = ds.iter().map(|d| d.option_type).collect();
    assert_eq!(
        kinds,
        vec![
            LegKind::SpotBuy,
            LegKind::TransferSpotToDelivery,
            LegKind::DeliverySell,
            LegKind::DeliveryBuy,
            LegKind::TransferDeliveryToSpot,
            LegKind::SpotSell,
        ]
    );
    assert_eq!(ds[0].symbol, "BTCUSDT");
    assert_eq!(ds[1].symbol, "BTC");
    assert_eq!(ds[1].market, MarketKind::Transfer);
    assert_eq!(ds[2].symbol, "BTCUSD_PERP");
    assert_eq!(ds[5].market, MarketKind::Spot);
}

#[test]
fn reverse_plans_have_four_alternating_legs() {
    let s = strategy(Direction::Reverse, MarketKind::Futures, MarketKind::Futures);
    let ds = new_reverse_usdm_desc(&s);
    assert_eq!(ds.len(), 4);
    let kinds: Vec<LegKind> = ds.iter().map(|d| d.option_type).collect();
    assert_eq!(
        kinds,
        vec![LegKind::FuturesBuy, LegKind::FuturesSell, LegKind::FuturesBuy, LegKind::FuturesSell]
    );
    assert_eq!(ds[0].symbol, "BTCUSDT");
    assert_eq!(ds[1].symbol, "BTCUSD_PERP");
    assert_eq!(ds[2].symbol, "BTCUSD_PERP");
    assert_eq!(ds[3].symbol, "BTCUSDT");

    let sc = strategy(Direction::Reverse, MarketKind::Delivery, MarketKind::Delivery);
    let dc = new_reverse_coinm_desc(&sc);
    let kinds: Vec<LegKind> = dc.iter().map(|d| d.option_type).collect();
    assert_eq!(
        kinds,
        vec![
            LegKind::DeliveryBuy,
            LegKind::DeliverySell,
            LegKind::DeliveryBuy,
            LegKind::DeliverySell,
        ]
    );
}

#[test]
fn build_plan_rejects_unknown_shapes() {
    let s = strategy(Direction::Reverse, MarketKind::Spot, MarketKind::Delivery);
    assert!(build_plan(&s).is_none());
    let s2 = strategy(Direction::Reverse, MarketKind::Futures, MarketKind::Delivery);
    assert!(build_plan(&s2).is_none());
    let ok = strategy(Direction::Positive, MarketKind::Spot, MarketKind::Delivery);
    assert_eq!(build_plan(&ok).unwrap().len(), 6);
}

#[test]
fn provisioning_is_idempotent_and_fills_fresh_rows() {
    let s = strategy(Direction::Positive, MarketKind::Spot, MarketKind::Delivery);
    assert!(provision_steps(&s, 6).is_none());
    let rows = provision_steps(&s, 0).unwrap();
    assert_eq!(rows.len(), 6);
    for row in &rows {
        assert_eq!(row.arb_strategy_id, 7);
        assert_eq!(row.option_status, StepStatus::UnDone);
        // option_amt 2.0 times margin_mul 3
        assert_eq!(row.option_amount.units, 6 * DEC_UNIT);
        assert_eq!(row.option_executed_amt.units, 0);
        assert!(row.current_order_id.is_none());
    }
    assert_eq!(rows[0].option_type, LegKind::SpotBuy);
    assert_eq!(rows[4].option_type, LegKind::TransferDeliveryToSpot);
}

#[test]
fn provisioning_skips_unknown_plan() {
    let s = strategy(Direction::Reverse, MarketKind::Spot, MarketKind::Spot);
    assert!(provision_steps(&s, 0).is_none());
}
