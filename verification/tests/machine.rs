use arbitrage::dec::{Dec, DEC_UNIT};
use arbitrage::exchange::{OrderSide, OrderType, TimeInForce, UniversalTransferType};
use arbitrage::machine::{
    count_done, next_action, next_action_positive, next_action_reverse, StepAction, StrategyError,
};
use arbitrage::model::{
    ArbDiffRateInfo, ArbStrategy, Direction, DoingStatus, MarketKind, RecordStatus, StepStatus,
};
use arbitrage::provision::provision_steps;
use arbitrage::reconcile::{
    apply_transfer, close_transfer_amount, mark_strategy_done, new_order_record,
    new_transfer_record, reconcile_order, record_placement, OrderOutcome,
};

fn strategy() -> ArbStrategy {
    ArbStrategy {
        id: 7,
        diff_rate_id: 3,
        user_id: 1,
        platform: "binance".to_string(),
        option_choose: Direction::Positive,
        coin: "BTC".to_string(),
        from_market: MarketKind::Spot,
        from_symbol: "BTCUSDT".to_string(),
        from_price_truncate: 4,
        from_amt_truncate: 4,
        to_market: MarketKind::Delivery,
        to_symbol: "BTCUSD_PERP".to_string(),
        to_price_truncate: 4,
        to_amt_truncate: 4,
        option_open: Dec::from_units(5_000_000),   // 0.05
        option_close: Dec::zero(),
        option_amt: Dec::from_i64(1),
        contract_mul: 10,
        margin_mul: 1,
        fok_diff: Dec::zero(),
        spot_fee: Dec::zero(),
        futures_fee: Dec::zero(),
        delivery_fee: Dec::zero(),
        doing_status: DoingStatus::Run,
    }
}

fn snapshot(from_units: i128, to_units: i128, rate_units: i128) -> ArbDiffRateInfo {
    ArbDiffRateInfo {
        id: 1,
        diff_rate_id: 3,
        platform: "binance".to_string(),
        coin: "BTC".to_string(),
        option_choose: "positive".to_string(),
        from_market: "spot".to_string(),
        from_symbol: "BTCUSDT".to_string(),
        from_price: Dec::from_units(from_units),
        to_market: "delivery".to_string(),
        to_symbol: "BTCUSD_PERP".to_string(),
        to_price: Dec::from_units(to_units),
        diff_price: Dec::from_units(to_units - from_units),
        diff_rate: Dec::from_units(rate_units),
        created: 0,
        updated: 0,
    }
}

#[test]
fn open_phase_selects_first_leg_when_rate_crosses() {
    // from 1.0000, to 1.0600, rate 0.0600 >= open threshold 0.05
    let s = strategy();
    let steps = provision_steps(&s, 0).unwrap();
    let d = snapshot(DEC_UNIT, 106_000_000, 6_000_000);
    match next_action_positive(&s, &steps, &d).unwrap() {
        StepAction::PlaceSpotOrder {
            step_index,
            symbol,
            side,
            order_type,
            time_in_force,
            price,
            amount,
        } => {
            assert_eq!(step_index, 0);
            assert_eq!(symbol, "BTCUSDT");
            assert_eq!(side, OrderSide::Buy);
            assert_eq!(order_type, OrderType::Limit);
            assert_eq!(time_in_force, TimeInForce::FOK);
            assert_eq!(price.units, DEC_UNIT);  // 1.0000 + 0 fok
            assert_eq!(amount.units, DEC_UNIT);  // budget 1.0
        },
        other => panic!("expected a spot buy, got {:?}", other),
    }
}

#[test]
fn below_thresholds_holds() {
    let s = strategy();
    let steps = provision_steps(&s, 0).unwrap();
    // rate 0.0100: under the open threshold, over the close threshold
    let d = snapshot(DEC_UNIT, 101_000_000, 1_000_000);
    assert!(matches!(next_action_positive(&s, &steps, &d).unwrap(), StepAction::Hold));
}

#[test]
fn outstanding_order_is_read_back_not_replaced() {
    let s = strategy();
    let mut steps = provision_steps(&s, 0).unwrap();
    record_placement(&mut steps[0], 777);
    let d = snapshot(DEC_UNIT, 106_000_000, 6_000_000);
    match next_action_positive(&s, &steps, &d).unwrap() {
        StepAction::QuerySpotOrder { step_index, req } => {
            assert_eq!(step_index, 0);
            assert_eq!(req.symbol, "BTCUSDT");
            assert_eq!(req.order_id, Some(777));
        },
        other => panic!("expected a status read, got {:?}", other),
    }
}

#[test]
fn transfer_leg_follows_filled_buy() {
    let s = strategy();
    let mut steps = provision_steps(&s, 0).unwrap();
    steps[0].option_status = StepStatus::Done;
    steps[0].option_executed_amt = Dec::from_i64(1);
    let d = snapshot(DEC_UNIT, 106_000_000, 6_000_000);
    match next_action_positive(&s, &steps, &d).unwrap() {
        StepAction::DoTransfer { step_index, coin, transfer_type, amount } => {
            assert_eq!(step_index, 1);
            assert_eq!(coin, "BTC");
            assert_eq!(transfer_type, UniversalTransferType::MainCmfuture);
            assert_eq!(amount.units, DEC_UNIT);  // 1.0 * (1 - 0 fee)
        },
        other => panic!("expected a transfer, got {:?}", other),
    }
}

#[test]
fn delivery_sell_is_sized_by_contract_count() {
    let s = strategy();
    let mut steps = provision_steps(&s, 0).unwrap();
    steps[0].option_status = StepStatus::Done;
    steps[0].option_executed_amt = Dec::from_i64(100);
    steps[1].option_status = StepStatus::Done;
    steps[1].option_executed_amt = Dec::from_i64(100);
    // to-price 0.99: 100 * 0.99 / 10 = 9.9 -> ceil 10 -> 9 contracts
    let d = snapshot(Dec::from_units(90_000_000).units, 99_000_000, 10_000_000);
    match next_action_positive(&s, &steps, &d).unwrap() {
        StepAction::PlaceDeliveryOrder {
            step_index, symbol, side, order_type, time_in_force, price, amount
        } => {
            assert_eq!(step_index, 2);
            assert_eq!(symbol, "BTCUSD_PERP");
            assert_eq!(side, OrderSide::Sell);
            assert_eq!(order_type, OrderType::Limit);
            assert_eq!(time_in_force, TimeInForce::FOK);
            assert_eq!(price.units, 99_000_000);
            assert_eq!(amount.units, 9 * DEC_UNIT);
        },
        other => panic!("expected a delivery sell, got {:?}", other),
    }
}

#[test]
fn out_of_order_state_is_an_error() {
    let s = strategy();
    let mut steps = provision_steps(&s, 0).unwrap();
    // a later leg done while the first is still pending
    steps[1].option_status = StepStatus::Done;
    let d = snapshot(DEC_UNIT, 106_000_000, 6_000_000);
    assert_eq!(next_action_positive(&s, &steps, &d).unwrap_err(), StrategyError::OutOfOrder);
}

#[test]
fn wrong_row_count_is_an_error() {
    let s = strategy();
    let mut steps = provision_steps(&s, 0).unwrap();
    steps.pop();
    let d = snapshot(DEC_UNIT, 106_000_000, 6_000_000);
    assert_eq!(
        next_action_positive(&s, &steps, &d).unwrap_err(),
        StrategyError::StepCountMismatch
    );
    steps.clear();
    assert_eq!(next_action_positive(&s, &steps, &d).unwrap_err(), StrategyError::NoSteps);
}

#[test]
fn finished_strategy_is_marked_done() {
    let s = strategy();
    let mut steps = provision_steps(&s, 0).unwrap();
    for step in steps.iter_mut() {
        step.option_status = StepStatus::Done;
    }
    let d = snapshot(DEC_UNIT, 106_000_000, 6_000_000);
    assert!(matches!(
        next_action(&s, &steps, &d).unwrap(),
        StepAction::MarkStrategyDone
    ));
    let mut s2 = s;
    mark_strategy_done(&mut s2);
    assert_eq!(s2.doing_status, DoingStatus::Done);
}

fn reverse_strategy() -> ArbStrategy {
    let mut s = strategy();
    s.option_choose = Direction::Reverse;
    s.from_market = MarketKind::Futures;
    s.to_market = MarketKind::Futures;
    // open at or below -0.05, close at or above 0.0
    s.option_open = Dec::from_units(-5_000_000);
    s.option_close = Dec::zero();
    s
}

#[test]
fn reverse_open_selects_far_buy_below_threshold() {
    // rate -0.06 <= open threshold -0.05: buy the far contract first
    let s = reverse_strategy();
    let steps = provision_steps(&s, 0).unwrap();
    let d = snapshot(106_000_000, DEC_UNIT, -6_000_000);
    match next_action_reverse(&s, &steps, &d).unwrap() {
        StepAction::PlaceFuturesOrder {
            step_index, symbol, side, order_type, time_in_force, price, amount
        } => {
            assert_eq!(step_index, 0);
            assert_eq!(symbol, "BTCUSDT");
            assert_eq!(side, OrderSide::Buy);
            assert_eq!(order_type, OrderType::Limit);
            assert_eq!(time_in_force, TimeInForce::FOK);
            assert_eq!(price.units, 106_000_000);  // from-price 1.06 + 0 fok
            assert_eq!(amount.units, DEC_UNIT);  // budget 1.0
        },
        other => panic!("expected a futures buy, got {:?}", other),
    }
}

#[test]
fn reverse_thresholds_run_inverted() {
    // rate -0.01: above the open threshold, below the close threshold
    let s = reverse_strategy();
    let steps = provision_steps(&s, 0).unwrap();
    let d = snapshot(101_000_000, DEC_UNIT, -1_000_000);
    assert!(matches!(next_action_reverse(&s, &steps, &d).unwrap(), StepAction::Hold));
}

#[test]
fn reverse_perp_sell_follows_far_buy_net_of_fee() {
    let mut s = reverse_strategy();
    s.futures_fee = Dec::from_units(1_000_000);  // 0.01
    let mut steps = provision_steps(&s, 0).unwrap();
    steps[0].option_status = StepStatus::Done;
    steps[0].option_executed_amt = Dec::from_i64(2);
    let d = snapshot(106_000_000, DEC_UNIT, -6_000_000);
    match next_action_reverse(&s, &steps, &d).unwrap() {
        StepAction::PlaceFuturesOrder { step_index, symbol, side, price, amount, .. } => {
            assert_eq!(step_index, 1);
            assert_eq!(symbol, "BTCUSD_PERP");
            assert_eq!(side, OrderSide::Sell);
            assert_eq!(price.units, DEC_UNIT);  // to-price 1.0 - 0 fok
            assert_eq!(amount.units, 198_000_000);  // 2.0 * (1 - 0.01)
        },
        other => panic!("expected a perpetual sell, got {:?}", other),
    }
}

#[test]
fn reverse_outstanding_order_is_read_back() {
    let s = reverse_strategy();
    let mut steps = provision_steps(&s, 0).unwrap();
    record_placement(&mut steps[0], 555);
    let d = snapshot(106_000_000, DEC_UNIT, -6_000_000);
    match next_action_reverse(&s, &steps, &d).unwrap() {
        StepAction::QueryFuturesOrder { step_index, symbol, order_id } => {
            assert_eq!(step_index, 0);
            assert_eq!(symbol, "BTCUSDT");
            assert_eq!(order_id, 555);
        },
        other => panic!("expected a status read, got {:?}", other),
    }
}

#[test]
fn reverse_close_buys_perp_back_then_sells_far() {
    let s = reverse_strategy();
    let mut steps = provision_steps(&s, 0).unwrap();
    steps[0].option_status = StepStatus::Done;
    steps[0].option_executed_amt = Dec::from_i64(1);
    steps[1].option_status = StepStatus::Done;
    steps[1].option_executed_amt = Dec::from_i64(1);
    // rate 0.02 >= close threshold 0.0: buy the perpetual back
    let d = snapshot(DEC_UNIT, 102_000_000, 2_000_000);
    match next_action_reverse(&s, &steps, &d).unwrap() {
        StepAction::PlaceFuturesOrder { step_index, symbol, side, amount, .. } => {
            assert_eq!(step_index, 2);
            assert_eq!(symbol, "BTCUSD_PERP");
            assert_eq!(side, OrderSide::Buy);
            assert_eq!(amount.units, DEC_UNIT);
        },
        other => panic!("expected a perpetual buy, got {:?}", other),
    }
    steps[2].option_status = StepStatus::Done;
    steps[2].option_executed_amt = Dec::from_i64(1);
    match next_action_reverse(&s, &steps, &d).unwrap() {
        StepAction::PlaceFuturesOrder { step_index, symbol, side, .. } => {
            assert_eq!(step_index, 3);
            assert_eq!(symbol, "BTCUSDT");
            assert_eq!(side, OrderSide::Sell);
        },
        other => panic!("expected a far sell, got {:?}", other),
    }
}

#[test]
fn reverse_coinm_places_delivery_orders() {
    let mut s = reverse_strategy();
    s.from_market = MarketKind::Delivery;
    s.to_market = MarketKind::Delivery;
    let steps = provision_steps(&s, 0).unwrap();
    let d = snapshot(106_000_000, DEC_UNIT, -6_000_000);
    match next_action_reverse(&s, &steps, &d).unwrap() {
        StepAction::PlaceDeliveryOrder { step_index, side, .. } => {
            assert_eq!(step_index, 0);
            assert_eq!(side, OrderSide::Buy);
        },
        other => panic!("expected a delivery buy, got {:?}", other),
    }
}

#[test]
fn reverse_out_of_order_state_is_an_error() {
    let s = reverse_strategy();
    let mut steps = provision_steps(&s, 0).unwrap();
    steps[1].option_status = StepStatus::Done;
    let d = snapshot(106_000_000, DEC_UNIT, -6_000_000);
    assert_eq!(next_action_reverse(&s, &steps, &d).unwrap_err(), StrategyError::OutOfOrder);
}

#[test]
fn reverse_strategy_validates_and_retires() {
    let s = reverse_strategy();
    let mut steps = provision_steps(&s, 0).unwrap();
    steps.pop();
    let d = snapshot(DEC_UNIT, 106_000_000, 6_000_000);
    assert_eq!(
        next_action_reverse(&s, &steps, &d).unwrap_err(),
        StrategyError::StepCountMismatch
    );
    let mut steps = provision_steps(&s, 0).unwrap();
    for step in steps.iter_mut() {
        step.option_status = StepStatus::Done;
    }
    assert!(matches!(
        next_action_reverse(&s, &steps, &d).unwrap(),
        StepAction::MarkStrategyDone
    ));
}

#[test]
fn reverse_strategy_walks_the_plan_in_order() {
    // Drive a whole reverse cycle: open below the open threshold, close
    // above the close threshold, retiring after four legs in order.
    let s = reverse_strategy();
    let mut steps = provision_steps(&s, 0).unwrap();
    let open = snapshot(106_000_000, DEC_UNIT, -6_000_000);
    let close = snapshot(DEC_UNIT, 102_000_000, 2_000_000);
    let mut order_seq = 500u64;
    let mut done_order: Vec<usize> = Vec::new();
    for round in 0..16 {
        let d = if round < 4 { &open } else { &close };
        match next_action_reverse(&s, &steps, d).unwrap() {
            StepAction::PlaceFuturesOrder { step_index, price, amount, .. } => {
                order_seq += 1;
                record_placement(&mut steps[step_index], order_seq);
                let mut rec =
                    new_order_record(&s, &steps[step_index], price, amount, order_seq, 0);
                let mut step = steps[step_index].clone();
                reconcile_order(
                    &mut step,
                    &mut rec,
                    &OrderOutcome::Filled { executed_qty: amount },
                    1,
                );
                steps[step_index] = step;
                done_order.push(step_index);
            },
            StepAction::MarkStrategyDone => {
                assert_eq!(done_order, vec![0, 1, 2, 3]);
                assert_eq!(count_done(&steps), 4);
                return;
            },
            StepAction::Hold => {},
            other => panic!("unexpected action {:?}", other),
        }
    }
    panic!("reverse strategy never finished: done so far {:?}", done_order);
}

#[test]
fn not_filled_clears_order_and_expires_record() {
    // reconciliation of a dead fill-or-kill attempt
    let s = strategy();
    let mut steps = provision_steps(&s, 0).unwrap();
    record_placement(&mut steps[0], 888);
    let mut rec = new_order_record(&s, &steps[0], Dec::from_i64(1), Dec::from_i64(1), 888, 5);
    assert_eq!(rec.is_ok, RecordStatus::UnDone);
    let before = count_done(&steps);
    let mut step0 = steps[0].clone();
    reconcile_order(&mut step0, &mut rec, &OrderOutcome::NotFilled, 6);
    assert!(step0.current_order_id.is_none());
    assert_eq!(step0.option_status, StepStatus::UnDone);
    assert_eq!(rec.is_ok, RecordStatus::Expired);
    steps[0] = step0;
    assert_eq!(count_done(&steps), before);
}

#[test]
fn filled_order_completes_step_and_record() {
    let s = strategy();
    let mut steps = provision_steps(&s, 0).unwrap();
    record_placement(&mut steps[0], 888);
    let mut rec = new_order_record(&s, &steps[0], Dec::from_i64(1), Dec::from_i64(1), 888, 5);
    let mut step0 = steps[0].clone();
    let qty = Dec::from_units(99_990_000);
    reconcile_order(&mut step0, &mut rec, &OrderOutcome::Filled { executed_qty: qty }, 6);
    assert_eq!(step0.option_status, StepStatus::Done);
    assert_eq!(step0.option_executed_amt, qty);
    assert_eq!(rec.is_ok, RecordStatus::Done);
    assert_eq!(rec.executed_amt, qty);
    steps[0] = step0;
    assert_eq!(count_done(&steps), 1);
}

#[test]
fn transfer_completes_synchronously() {
    let s = strategy();
    let mut steps = provision_steps(&s, 0).unwrap();
    let amount = Dec::from_units(99_000_000);
    apply_transfer(&mut steps[1], 4242, amount);
    assert_eq!(steps[1].option_status, StepStatus::Done);
    assert_eq!(steps[1].option_executed_amt, amount);
    assert_eq!(steps[1].current_order_id, Some(4242));
    let rec = new_transfer_record(&s, &steps[1], amount, 4242, 9);
    assert_eq!(rec.is_ok, RecordStatus::Done);
    assert_eq!(rec.executed_amt, amount);
    assert_eq!(rec.price.units, 0);
}

#[test]
fn close_transfer_takes_delivery_fee_off() {
    let mut s = strategy();
    s.delivery_fee = Dec::from_units(1_000_000);  // 0.01
    // 2.0 * (1 - 0.01) = 1.98
    let amount = close_transfer_amount(&s, Dec::from_i64(2));
    assert_eq!(amount.units, 198_000_000);
}

#[test]
fn positive_strategy_walks_the_plan_in_order() {
    // Drive a whole open-and-close cycle: every placement targets the next
    // pending step, fills complete it, and the strategy retires at the end.
    let s = strategy();
    let mut steps = provision_steps(&s, 0).unwrap();
    let open = snapshot(DEC_UNIT, 106_000_000, 6_000_000);   // rate over the open threshold
    let close = snapshot(DEC_UNIT, 106_000_000, -1_000_000);  // rate under the close threshold
    let mut order_seq = 100u64;
    let mut done_order: Vec<usize> = Vec::new();
    for round in 0..32 {
        let d = if round < 8 { &open } else { &close };
        match next_action(&s, &steps, d).unwrap() {
            StepAction::PlaceSpotOrder { step_index, price, amount, .. }
            | StepAction::PlaceDeliveryOrder { step_index, price, amount, .. } => {
                order_seq += 1;
                record_placement(&mut steps[step_index], order_seq);
                let mut rec =
                    new_order_record(&s, &steps[step_index], price, amount, order_seq, 0);
                let mut step = steps[step_index].clone();
                reconcile_order(
                    &mut step,
                    &mut rec,
                    &OrderOutcome::Filled { executed_qty: amount },
                    1,
                );
                steps[step_index] = step;
                done_order.push(step_index);
            },
            StepAction::QuerySpotOrder { .. } | StepAction::QueryDeliveryOrder { .. } => {
                panic!("order was reconciled in place; no read-back expected");
            },
            StepAction::DoTransfer { step_index, amount, .. } => {
                order_seq += 1;
                apply_transfer(&mut steps[step_index], order_seq, amount);
                done_order.push(step_index);
            },
            StepAction::FetchDeliveryFill { step_index, .. } => {
                // the delivery buy filled one coin of base quantity
                order_seq += 1;
                let amount = close_transfer_amount(&s, Dec::from_i64(1));
                apply_transfer(&mut steps[step_index], order_seq, amount);
                done_order.push(step_index);
            },
            StepAction::MarkStrategyDone => {
                assert_eq!(done_order, vec![0, 1, 2, 3, 4, 5]);
                assert_eq!(count_done(&steps), 6);
                return;
            },
            StepAction::Hold => {},
            other => panic!("no futures leg in a positive plan: {:?}", other),
        }
    }
    panic!("strategy never finished: done so far {:?}", done_order);
}
