//! Execution-plan builder.
//!
//! A strategy's plan is a fixed ordered list of step descriptors: six legs
//! for a positive strategy, four for a reverse one.  Building a plan has no
//! side effect; a direction/market combination outside the three known
//! shapes yields no plan.

use vstd::prelude::*;
use crate::model::{ArbStrategy, Direction, LegKind, MarketKind};

verus! {

/// Descriptor of one leg: where it runs, on what symbol, and what it does.
#[derive(Clone, Debug)]
pub struct ExDesc {
    pub market: MarketKind,
    pub symbol: String,
    pub option_type: LegKind,
}

/// Fixed number of steps of a plan in the given direction.
pub open spec fn expected_step_count(d: Direction) -> int {
    if d is Positive {
        6
    } else {
        4
    }
}

/// Leg kind at position `i` of the positive plan.
pub open spec fn positive_leg(i: int) -> LegKind {
    if i == 0 {
        LegKind::SpotBuy
    } else if i == 1 {
        LegKind::TransferSpotToDelivery
    } else if i == 2 {
        LegKind::DeliverySell
    } else if i == 3 {
        LegKind::DeliveryBuy
    } else if i == 4 {
        LegKind::TransferDeliveryToSpot
    } else {
        LegKind::SpotSell
    }
}

/// The six ordered legs of a positive strategy, with their venues and
/// symbols.
pub open spec fn is_positive_plan(s: ArbStrategy, ds: Seq<ExDesc>) -> bool {
    &&& ds.len() == 6
    &&& forall|i: int| 0 <= i < 6 ==> (#[trigger] ds[i]).option_type == positive_leg(i)
    &&& ds[0].market == s.from_market && ds[0].symbol@ == s.from_symbol@
    &&& ds[1].market == MarketKind::Transfer && ds[1].symbol@ == s.coin@
    &&& ds[2].market == s.to_market && ds[2].symbol@ == s.to_symbol@
    &&& ds[3].market == s.to_market && ds[3].symbol@ == s.to_symbol@
    &&& ds[4].market == MarketKind::Transfer && ds[4].symbol@ == s.coin@
    &&& ds[5].market == s.from_market && ds[5].symbol@ == s.from_symbol@
}

/// The four ordered legs of a reverse strategy on the USD-margined market.
pub open spec fn is_reverse_usdm_plan(s: ArbStrategy, ds: Seq<ExDesc>) -> bool {
    &&& ds.len() == 4
    &&& ds[0].market == s.from_market && ds[0].symbol@ == s.from_symbol@ && ds[0].option_type
        == LegKind::FuturesBuy
    &&& ds[1].market == s.to_market && ds[1].symbol@ == s.to_symbol@ && ds[1].option_type
        == LegKind::FuturesSell
    &&& ds[2].market == s.to_market && ds[2].symbol@ == s.to_symbol@ && ds[2].option_type
        == LegKind::FuturesBuy
    &&& ds[3].market == s.from_market && ds[3].symbol@ == s.from_symbol@ && ds[3].option_type
        == LegKind::FuturesSell
}

/// The four ordered legs of a reverse strategy on the coin-margined market.
pub open spec fn is_reverse_coinm_plan(s: ArbStrategy, ds: Seq<ExDesc>) -> bool {
    &&& ds.len() == 4
    &&& ds[0].market == s.from_market && ds[0].symbol@ == s.from_symbol@ && ds[0].option_type
        == LegKind::DeliveryBuy
    &&& ds[1].market == s.to_market && ds[1].symbol@ == s.to_symbol@ && ds[1].option_type
        == LegKind::DeliverySell
    &&& ds[2].market == s.to_market && ds[2].symbol@ == s.to_symbol@ && ds[2].option_type
        == LegKind::DeliveryBuy
    &&& ds[3].market == s.from_market && ds[3].symbol@ == s.from_symbol@ && ds[3].option_type
        == LegKind::DeliverySell
}

/// Plan of a positive strategy: spot buy, transfer over, delivery sell,
/// then delivery buy, transfer back, spot sell.
pub fn new_positive_desc(s: &ArbStrategy) -> (r: Vec<ExDesc>)
    ensures
        is_positive_plan(*s, r@),
{
    let mut ds: Vec<ExDesc> = Vec::new();
    ds.push(
        ExDesc {
            market: s.from_market,
            symbol: s.from_symbol.clone(),
            option_type: LegKind::SpotBuy,
        },
    );
    ds.push(
        ExDesc {
            market: MarketKind::Transfer,
            symbol: s.coin.clone(),
            option_type: LegKind::TransferSpotToDelivery,
        },
    );
    ds.push(
        ExDesc {
            market: s.to_market,
            symbol: s.to_symbol.clone(),
            option_type: LegKind::DeliverySell,
        },
    );
    ds.push(
        ExDesc {
            market: s.to_market,
            symbol: s.to_symbol.clone(),
            option_type: LegKind::DeliveryBuy,
        },
    );
    ds.push(
        ExDesc {
            market: MarketKind::Transfer,
            symbol: s.coin.clone(),
            option_type: LegKind::TransferDeliveryToSpot,
        },
    );
    ds.push(
        ExDesc {
            market: s.from_market,
            symbol: s.from_symbol.clone(),
            option_type: LegKind::SpotSell,
        },
    );
    ds
}

/// Plan of a reverse strategy on the USD-margined market: buy the far
/// future, sell the perpetual, then buy the perpetual, sell the far future.
pub fn new_reverse_usdm_desc(s: &ArbStrategy) -> (r: Vec<ExDesc>)
    ensures
        is_reverse_usdm_plan(*s, r@),
{
    let mut ds: Vec<ExDesc> = Vec::new();
    ds.push(
        ExDesc {
            market: s.from_market,
            symbol: s.from_symbol.clone(),
            option_type: LegKind::FuturesBuy,
        },
    );
    ds.push(
        ExDesc {
            market: s.to_market,
            symbol: s.to_symbol.clone(),
            option_type: LegKind::FuturesSell,
        },
    );
    ds.push(
        ExDesc {
            market: s.to_market,
            symbol: s.to_symbol.clone(),
            option_type: LegKind::FuturesBuy,
        },
    );
    ds.push(
        ExDesc {
            market: s.from_market,
            symbol: s.from_symbol.clone(),
            option_type: LegKind::FuturesSell,
        },
    );
    ds
}

/// Plan of a reverse strategy on the coin-margined market; same shape as the
/// USD-margined plan with delivery legs.
pub fn new_reverse_coinm_desc(s: &ArbStrategy) -> (r: Vec<ExDesc>)
    ensures
        is_reverse_coinm_plan(*s, r@),
{
    let mut ds: Vec<ExDesc> = Vec::new();
    ds.push(
        ExDesc {
            market: s.from_market,
            symbol: s.from_symbol.clone(),
            option_type: LegKind::DeliveryBuy,
        },
    );
    ds.push(
        ExDesc {
            market: s.to_market,
            symbol: s.to_symbol.clone(),
            option_type: LegKind::DeliverySell,
        },
    );
    ds.push(
        ExDesc {
            market: s.to_market,
            symbol: s.to_symbol.clone(),
            option_type: LegKind::DeliveryBuy,
        },
    );
    ds.push(
        ExDesc {
            market: s.from_market,
            symbol: s.from_symbol.clone(),
            option_type: LegKind::DeliverySell,
        },
    );
    ds
}

/// Whether a strategy's direction and markets form one of the three known
/// plan shapes.
pub open spec fn has_plan(s: ArbStrategy) -> bool {
    ||| s.option_choose is Positive
    ||| (s.option_choose is Reverse && s.from_market == MarketKind::Delivery && s.to_market
        == MarketKind::Delivery)
    ||| (s.option_choose is Reverse && s.from_market == MarketKind::Futures && s.to_market
        == MarketKind::Futures)
}

/// The plan for a strategy, or nothing when the direction/market combination
/// is unknown.
pub fn build_plan(s: &ArbStrategy) -> (r: Option<Vec<ExDesc>>)
    ensures
        r is Some <==> has_plan(*s),
        r matches Some(ds) ==> {
            &&& ds@.len() == expected_step_count(s.option_choose)
            &&& s.option_choose is Positive ==> is_positive_plan(*s, ds@)
            &&& (s.option_choose is Reverse && s.from_market == MarketKind::Delivery)
                ==> is_reverse_coinm_plan(*s, ds@)
            &&& (s.option_choose is Reverse && s.from_market == MarketKind::Futures)
                ==> is_reverse_usdm_plan(*s, ds@)
        },
{
    match s.option_choose {
        Direction::Positive => Some(new_positive_desc(s)),
        Direction::Reverse => {
            if s.from_market == MarketKind::Delivery && s.to_market == MarketKind::Delivery {
                Some(new_reverse_coinm_desc(s))
            } else if s.from_market == MarketKind::Futures && s.to_market == MarketKind::Futures {
                Some(new_reverse_usdm_desc(s))
            } else {
                None
            }
        },
    }
}

} // verus!
