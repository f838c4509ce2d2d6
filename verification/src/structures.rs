//! The typed records that the exchange's payloads decode into.
//!
//! Every record is read member by member, in the order of its fields: the
//! first member that is absent or of the wrong shape gives the error, and no
//! record is handed out half filled.

use vstd::prelude::*;
use crate::decode::{
    before, decimal_field, fault_of, flag_field, i32_field, i64_field, members_of, missing,
    order_type_field, read_decimal, read_flag, read_i32, read_i64, read_members, read_order_type,
    read_side, read_text, side_field, text_field, Decimal, DecodeError, Mismatch,
};
use crate::json::{find_member, member, Json};
use crate::types::{OrderType, TradeDirection};

pub use crate::envelope::BybitResponse;

verus! {

/// What the exchange answers to a new order.
#[derive(Clone, Debug, PartialEq)]
pub struct CreateOrderResponse {
    pub order_id: String,
    pub order_link_id: String,
}

/// The error of the first member, in the order of the fields, that a
/// `CreateOrderResponse` cannot be read from; `None` where all of them can.
pub open spec fn create_order_response_fault(members: Seq<(String, Json)>) -> Option<DecodeError> {
    before(fault_of(text_field(members, "orderId")),
    before(fault_of(text_field(members, "orderLinkId")),
    None))
}

/// The `CreateOrderResponse` that the members spell, where none of them is at fault.
pub open spec fn create_order_response_from(members: Seq<(String, Json)>) -> CreateOrderResponse {
    CreateOrderResponse {
        order_id: text_field(members, "orderId")->Ok_0,
        order_link_id: text_field(members, "orderLinkId")->Ok_0,
    }
}

/// What a JSON value decodes to as a `CreateOrderResponse`.
pub open spec fn create_order_response_of(value: Json) -> Result<CreateOrderResponse, DecodeError> {
    match members_of(value, "create_order_response") {
        Ok(members) => match create_order_response_fault(members) {
            Some(e) => Err(e),
            None => Ok(create_order_response_from(members)),
        },
        Err(e) => Err(e),
    }
}

impl CreateOrderResponse {
    /// Reads a `CreateOrderResponse` out of a JSON object.
    pub fn decode(value: &Json) -> (r: Result<CreateOrderResponse, DecodeError>)
        ensures
            r == create_order_response_of(*value),
    {
        let members = read_members(value, "create_order_response")?;
        let order_id = read_text(members, "orderId")?;
        let order_link_id = read_text(members, "orderLinkId")?;
        Ok(
            CreateOrderResponse {
                order_id,
                order_link_id,
            },
        )
    }
}

/// One order as the exchange lists it.
#[derive(Clone, Debug, PartialEq)]
pub struct Order {
    pub avg_price: String,
    pub block_trade_id: String,
    pub cancel_type: String,
    pub close_on_trigger: bool,
    pub create_type: String,
    pub created_time: String,
    pub cum_exec_fee: Decimal,
    pub cum_exec_qty: Decimal,
    pub cum_exec_value: Decimal,
    pub is_leverage: String,
    pub last_price_on_created: String,
    pub leaves_qty: String,
    pub leaves_value: String,
    pub market_unit: String,
    pub order_id: String,
    pub order_iv: String,
    pub order_link_id: String,
    pub order_status: String,
    pub order_type: OrderType,
    pub place_type: String,
    pub position_idx: i32,
    pub price: Decimal,
    pub qty: Decimal,
    pub reduce_only: bool,
    pub reject_reason: String,
    pub side: TradeDirection,
    pub sl_limit_price: String,
    pub sl_trigger_by: String,
    pub smp_group: i32,
    pub smp_order_id: String,
    pub smp_type: String,
    pub stop_loss: String,
    pub stop_order_type: String,
    pub symbol: String,
    pub take_profit: String,
    pub time_in_force: String,
    pub tp_limit_price: String,
    pub tp_trigger_by: String,
    pub tpsl_mode: String,
    pub trigger_by: String,
    pub trigger_direction: i32,
    pub trigger_price: String,
    pub updated_time: String,
}

impl Order {
    /// Whether every numeric field holds a decimal number.
    pub open spec fn well_formed(self) -> bool {
        &&& self.cum_exec_fee.well_formed()
        &&& self.cum_exec_qty.well_formed()
        &&& self.cum_exec_value.well_formed()
        &&& self.price.well_formed()
        &&& self.qty.well_formed()
    }
}

/// The error of the first member, in the order of the fields, that a
/// `Order` cannot be read from; `None` where all of them can.
pub open spec fn order_fault(members: Seq<(String, Json)>) -> Option<DecodeError> {
    before(fault_of(text_field(members, "avgPrice")),
    before(fault_of(text_field(members, "blockTradeId")),
    before(fault_of(text_field(members, "cancelType")),
    before(fault_of(flag_field(members, "closeOnTrigger")),
    before(fault_of(text_field(members, "createType")),
    before(fault_of(text_field(members, "createdTime")),
    before(fault_of(decimal_field(members, "cumExecFee")),
    before(fault_of(decimal_field(members, "cumExecQty")),
    before(fault_of(decimal_field(members, "cumExecValue")),
    before(fault_of(text_field(members, "isLeverage")),
    before(fault_of(text_field(members, "lastPriceOnCreated")),
    before(fault_of(text_field(members, "leavesQty")),
    before(fault_of(text_field(members, "leavesValue")),
    before(fault_of(text_field(members, "marketUnit")),
    before(fault_of(text_field(members, "orderId")),
    before(fault_of(text_field(members, "orderIv")),
    before(fault_of(text_field(members, "orderLinkId")),
    before(fault_of(text_field(members, "orderStatus")),
    before(fault_of(order_type_field(members, "orderType")),
    before(fault_of(text_field(members, "placeType")),
    before(fault_of(i32_field(members, "positionIdx")),
    before(fault_of(decimal_field(members, "price")),
    before(fault_of(decimal_field(members, "qty")),
    before(fault_of(flag_field(members, "reduceOnly")),
    before(fault_of(text_field(members, "rejectReason")),
    before(fault_of(side_field(members, "side")),
    before(fault_of(text_field(members, "slLimitPrice")),
    before(fault_of(text_field(members, "slTriggerBy")),
    before(fault_of(i32_field(members, "smpGroup")),
    before(fault_of(text_field(members, "smpOrderId")),
    before(fault_of(text_field(members, "smpType")),
    before(fault_of(text_field(members, "stopLoss")),
    before(fault_of(text_field(members, "stopOrderType")),
    before(fault_of(text_field(members, "symbol")),
    before(fault_of(text_field(members, "takeProfit")),
    before(fault_of(text_field(members, "timeInForce")),
    before(fault_of(text_field(members, "tpLimitPrice")),
    before(fault_of(text_field(members, "tpTriggerBy")),
    before(fault_of(text_field(members, "tpslMode")),
    before(fault_of(text_field(members, "triggerBy")),
    before(fault_of(i32_field(members, "triggerDirection")),
    before(fault_of(text_field(members, "triggerPrice")),
    before(fault_of(text_field(members, "updatedTime")),
    None)))))))))))))))))))))))))))))))))))))))))))
}

/// The `Order` that the members spell, where none of them is at fault.
pub open spec fn order_from(members: Seq<(String, Json)>) -> Order {
    Order {
        avg_price: text_field(members, "avgPrice")->Ok_0,
        block_trade_id: text_field(members, "blockTradeId")->Ok_0,
        cancel_type: text_field(members, "cancelType")->Ok_0,
        close_on_trigger: flag_field(members, "closeOnTrigger")->Ok_0,
        create_type: text_field(members, "createType")->Ok_0,
        created_time: text_field(members, "createdTime")->Ok_0,
        cum_exec_fee: decimal_field(members, "cumExecFee")->Ok_0,
        cum_exec_qty: decimal_field(members, "cumExecQty")->Ok_0,
        cum_exec_value: decimal_field(members, "cumExecValue")->Ok_0,
        is_leverage: text_field(members, "isLeverage")->Ok_0,
        last_price_on_created: text_field(members, "lastPriceOnCreated")->Ok_0,
        leaves_qty: text_field(members, "leavesQty")->Ok_0,
        leaves_value: text_field(members, "leavesValue")->Ok_0,
        market_unit: text_field(members, "marketUnit")->Ok_0,
        order_id: text_field(members, "orderId")->Ok_0,
        order_iv: text_field(members, "orderIv")->Ok_0,
        order_link_id: text_field(members, "orderLinkId")->Ok_0,
        order_status: text_field(members, "orderStatus")->Ok_0,
        order_type: order_type_field(members, "orderType")->Ok_0,
        place_type: text_field(members, "placeType")->Ok_0,
        position_idx: i32_field(members, "positionIdx")->Ok_0,
        price: decimal_field(members, "price")->Ok_0,
        qty: decimal_field(members, "qty")->Ok_0,
        reduce_only: flag_field(members, "reduceOnly")->Ok_0,
        reject_reason: text_field(members, "rejectReason")->Ok_0,
        side: side_field(members, "side")->Ok_0,
        sl_limit_price: text_field(members, "slLimitPrice")->Ok_0,
        sl_trigger_by: text_field(members, "slTriggerBy")->Ok_0,
        smp_group: i32_field(members, "smpGroup")->Ok_0,
        smp_order_id: text_field(members, "smpOrderId")->Ok_0,
        smp_type: text_field(members, "smpType")->Ok_0,
        stop_loss: text_field(members, "stopLoss")->Ok_0,
        stop_order_type: text_field(members, "stopOrderType")->Ok_0,
        symbol: text_field(members, "symbol")->Ok_0,
        take_profit: text_field(members, "takeProfit")->Ok_0,
        time_in_force: text_field(members, "timeInForce")->Ok_0,
        tp_limit_price: text_field(members, "tpLimitPrice")->Ok_0,
        tp_trigger_by: text_field(members, "tpTriggerBy")->Ok_0,
        tpsl_mode: text_field(members, "tpslMode")->Ok_0,
        trigger_by: text_field(members, "triggerBy")->Ok_0,
        trigger_direction: i32_field(members, "triggerDirection")->Ok_0,
        trigger_price: text_field(members, "triggerPrice")->Ok_0,
        updated_time: text_field(members, "updatedTime")->Ok_0,
    }
}

/// What a JSON value decodes to as a `Order`.
pub open spec fn order_of(value: Json) -> Result<Order, DecodeError> {
    match members_of(value, "order") {
        Ok(members) => match order_fault(members) {
            Some(e) => Err(e),
            None => Ok(order_from(members)),
        },
        Err(e) => Err(e),
    }
}

impl Order {
    /// Reads a `Order` out of a JSON object.
    pub fn decode(value: &Json) -> (r: Result<Order, DecodeError>)
        ensures
            r == order_of(*value),
            r matches Ok(record) ==> record.well_formed(),
    {
        let members = read_members(value, "order")?;
        let avg_price = read_text(members, "avgPrice")?;
        let block_trade_id = read_text(members, "blockTradeId")?;
        let cancel_type = read_text(members, "cancelType")?;
        let close_on_trigger = read_flag(members, "closeOnTrigger")?;
        let create_type = read_text(members, "createType")?;
        let created_time = read_text(members, "createdTime")?;
        let cum_exec_fee = read_decimal(members, "cumExecFee")?;
        let cum_exec_qty = read_decimal(members, "cumExecQty")?;
        let cum_exec_value = read_decimal(members, "cumExecValue")?;
        let is_leverage = read_text(members, "isLeverage")?;
        let last_price_on_created = read_text(members, "lastPriceOnCreated")?;
        let leaves_qty = read_text(members, "leavesQty")?;
        let leaves_value = read_text(members, "leavesValue")?;
        let market_unit = read_text(members, "marketUnit")?;
        let order_id = read_text(members, "orderId")?;
        let order_iv = read_text(members, "orderIv")?;
        let order_link_id = read_text(members, "orderLinkId")?;
        let order_status = read_text(members, "orderStatus")?;
        let order_type = read_order_type(members, "orderType")?;
        let place_type = read_text(members, "placeType")?;
        let position_idx = read_i32(members, "positionIdx")?;
        let price = read_decimal(members, "price")?;
        let qty = read_decimal(members, "qty")?;
        let reduce_only = read_flag(members, "reduceOnly")?;
        let reject_reason = read_text(members, "rejectReason")?;
        let side = read_side(members, "side")?;
        let sl_limit_price = read_text(members, "slLimitPrice")?;
        let sl_trigger_by = read_text(members, "slTriggerBy")?;
        let smp_group = read_i32(members, "smpGroup")?;
        let smp_order_id = read_text(members, "smpOrderId")?;
        let smp_type = read_text(members, "smpType")?;
        let stop_loss = read_text(members, "stopLoss")?;
        let stop_order_type = read_text(members, "stopOrderType")?;
        let symbol = read_text(members, "symbol")?;
        let take_profit = read_text(members, "takeProfit")?;
        let time_in_force = read_text(members, "timeInForce")?;
        let tp_limit_price = read_text(members, "tpLimitPrice")?;
        let tp_trigger_by = read_text(members, "tpTriggerBy")?;
        let tpsl_mode = read_text(members, "tpslMode")?;
        let trigger_by = read_text(members, "triggerBy")?;
        let trigger_direction = read_i32(members, "triggerDirection")?;
        let trigger_price = read_text(members, "triggerPrice")?;
        let updated_time = read_text(members, "updatedTime")?;
        Ok(
            Order {
                avg_price,
                block_trade_id,
                cancel_type,
                close_on_trigger,
                create_type,
                created_time,
                cum_exec_fee,
                cum_exec_qty,
                cum_exec_value,
                is_leverage,
                last_price_on_created,
                leaves_qty,
                leaves_value,
                market_unit,
                order_id,
                order_iv,
                order_link_id,
                order_status,
                order_type,
                place_type,
                position_idx,
                price,
                qty,
                reduce_only,
                reject_reason,
                side,
                sl_limit_price,
                sl_trigger_by,
                smp_group,
                smp_order_id,
                smp_type,
                stop_loss,
                stop_order_type,
                symbol,
                take_profit,
                time_in_force,
                tp_limit_price,
                tp_trigger_by,
                tpsl_mode,
                trigger_by,
                trigger_direction,
                trigger_price,
                updated_time,
            },
        )
    }
}

/// The balance of one coin within an account.
#[derive(Clone, Debug, PartialEq)]
pub struct CoinInfo {
    pub available_to_borrow: String,
    pub bonus: Decimal,
    pub accrued_interest: String,
    pub available_to_withdraw: Decimal,
    pub total_order_im: Decimal,
    pub equity: Decimal,
    pub total_position_mm: Decimal,
    pub usd_value: Decimal,
    pub unrealised_pnl: Decimal,
    pub collateral_switch: bool,
    pub spot_hedging_qty: Decimal,
    pub borrow_amount: String,
    pub total_position_im: Decimal,
    pub wallet_balance: Decimal,
    pub cum_realised_pnl: Decimal,
    pub locked: Decimal,
    pub margin_collateral: bool,
    pub coin: String,
}

impl CoinInfo {
    /// Whether every numeric field holds a decimal number.
    pub open spec fn well_formed(self) -> bool {
        &&& self.bonus.well_formed()
        &&& self.available_to_withdraw.well_formed()
        &&& self.total_order_im.well_formed()
        &&& self.equity.well_formed()
        &&& self.total_position_mm.well_formed()
        &&& self.usd_value.well_formed()
        &&& self.unrealised_pnl.well_formed()
        &&& self.spot_hedging_qty.well_formed()
        &&& self.total_position_im.well_formed()
        &&& self.wallet_balance.well_formed()
        &&& self.cum_realised_pnl.well_formed()
        &&& self.locked.well_formed()
    }
}

/// The error of the first member, in the order of the fields, that a
/// `CoinInfo` cannot be read from; `None` where all of them can.
pub open spec fn coin_info_fault(members: Seq<(String, Json)>) -> Option<DecodeError> {
    before(fault_of(text_field(members, "availableToBorrow")),
    before(fault_of(decimal_field(members, "bonus")),
    before(fault_of(text_field(members, "accruedInterest")),
    before(fault_of(decimal_field(members, "availableToWithdraw")),
    before(fault_of(decimal_field(members, "totalOrderIM")),
    before(fault_of(decimal_field(members, "equity")),
    before(fault_of(decimal_field(members, "totalPositionMM")),
    before(fault_of(decimal_field(members, "usdValue")),
    before(fault_of(decimal_field(members, "unrealisedPnl")),
    before(fault_of(flag_field(members, "collateralSwitch")),
    before(fault_of(decimal_field(members, "spotHedgingQty")),
    before(fault_of(text_field(members, "borrowAmount")),
    before(fault_of(decimal_field(members, "totalPositionIM")),
    before(fault_of(decimal_field(members, "walletBalance")),
    before(fault_of(decimal_field(members, "cumRealisedPnl")),
    before(fault_of(decimal_field(members, "locked")),
    before(fault_of(flag_field(members, "marginCollateral")),
    before(fault_of(text_field(members, "coin")),
    None))))))))))))))))))
}

/// The `CoinInfo` that the members spell, where none of them is at fault.
pub open spec fn coin_info_from(members: Seq<(String, Json)>) -> CoinInfo {
    CoinInfo {
        available_to_borrow: text_field(members, "availableToBorrow")->Ok_0,
        bonus: decimal_field(members, "bonus")->Ok_0,
        accrued_interest: text_field(members, "accruedInterest")->Ok_0,
        available_to_withdraw: decimal_field(members, "availableToWithdraw")->Ok_0,
        total_order_im: decimal_field(members, "totalOrderIM")->Ok_0,
        equity: decimal_field(members, "equity")->Ok_0,
        total_position_mm: decimal_field(members, "totalPositionMM")->Ok_0,
        usd_value: decimal_field(members, "usdValue")->Ok_0,
        unrealised_pnl: decimal_field(members, "unrealisedPnl")->Ok_0,
        collateral_switch: flag_field(members, "collateralSwitch")->Ok_0,
        spot_hedging_qty: decimal_field(members, "spotHedgingQty")->Ok_0,
        borrow_amount: text_field(members, "borrowAmount")->Ok_0,
        total_position_im: decimal_field(members, "totalPositionIM")->Ok_0,
        wallet_balance: decimal_field(members, "walletBalance")->Ok_0,
        cum_realised_pnl: decimal_field(members, "cumRealisedPnl")->Ok_0,
        locked: decimal_field(members, "locked")->Ok_0,
        margin_collateral: flag_field(members, "marginCollateral")->Ok_0,
        coin: text_field(members, "coin")->Ok_0,
    }
}

/// What a JSON value decodes to as a `CoinInfo`.
pub open spec fn coin_info_of(value: Json) -> Result<CoinInfo, DecodeError> {
    match members_of(value, "coin_info") {
        Ok(members) => match coin_info_fault(members) {
            Some(e) => Err(e),
            None => Ok(coin_info_from(members)),
        },
        Err(e) => Err(e),
    }
}

impl CoinInfo {
    /// Reads a `CoinInfo` out of a JSON object.
    pub fn decode(value: &Json) -> (r: Result<CoinInfo, DecodeError>)
        ensures
            r == coin_info_of(*value),
            r matches Ok(record) ==> record.well_formed(),
    {
        let members = read_members(value, "coin_info")?;
        let available_to_borrow = read_text(members, "availableToBorrow")?;
        let bonus = read_decimal(members, "bonus")?;
        let accrued_interest = read_text(members, "accruedInterest")?;
        let available_to_withdraw = read_decimal(members, "availableToWithdraw")?;
        let total_order_im = read_decimal(members, "totalOrderIM")?;
        let equity = read_decimal(members, "equity")?;
        let total_position_mm = read_decimal(members, "totalPositionMM")?;
        let usd_value = read_decimal(members, "usdValue")?;
        let unrealised_pnl = read_decimal(members, "unrealisedPnl")?;
        let collateral_switch = read_flag(members, "collateralSwitch")?;
        let spot_hedging_qty = read_decimal(members, "spotHedgingQty")?;
        let borrow_amount = read_text(members, "borrowAmount")?;
        let total_position_im = read_decimal(members, "totalPositionIM")?;
        let wallet_balance = read_decimal(members, "walletBalance")?;
        let cum_realised_pnl = read_decimal(members, "cumRealisedPnl")?;
        let locked = read_decimal(members, "locked")?;
        let margin_collateral = read_flag(members, "marginCollateral")?;
        let coin = read_text(members, "coin")?;
        Ok(
            CoinInfo {
                available_to_borrow,
                bonus,
                accrued_interest,
                available_to_withdraw,
                total_order_im,
                equity,
                total_position_mm,
                usd_value,
                unrealised_pnl,
                collateral_switch,
                spot_hedging_qty,
                borrow_amount,
                total_position_im,
                wallet_balance,
                cum_realised_pnl,
                locked,
                margin_collateral,
                coin,
            },
        )
    }
}

/// The error of the first item of a list that is no `CoinInfo`; `None` where
/// every item is one.
pub open spec fn coins_fault(items: Seq<Json>) -> Option<DecodeError>
    decreases items.len(),
{
    if items.len() == 0 {
        None
    } else {
        before(fault_of(coin_info_of(items[0])), coins_fault(items.drop_first()))
    }
}

/// The coins that the items of a list spell, item by item.
pub open spec fn coin_list(items: Seq<Json>) -> Seq<CoinInfo> {
    Seq::new(items.len(), |i: int| coin_info_of(items[i])->Ok_0)
}

/// The items of a member of a record that holds a list.
pub open spec fn coin_items(members: Seq<(String, Json)>, field: &'static str) -> Result<
    Seq<Json>,
    DecodeError,
> {
    match find_member(members, field@) {
        Some(Json::Array(items)) => Ok(items@),
        Some(_) => Err(DecodeError::SchemaMismatch { field, reason: Mismatch::NotList }),
        None => Err(missing(field)),
    }
}

/// The error that reading a member as a list of coins ends in; `None` where
/// it succeeds.
pub open spec fn coin_list_fault(members: Seq<(String, Json)>, field: &'static str) -> Option<
    DecodeError,
> {
    match coin_items(members, field) {
        Ok(items) => coins_fault(items),
        Err(e) => Some(e),
    }
}

/// Reads a member of a record that holds a list of coins.
pub fn read_coins(members: &Vec<(String, Json)>, field: &'static str) -> (r: Result<
    Vec<CoinInfo>,
    DecodeError,
>)
    ensures
        match r {
            Ok(coins) => {
                &&& coin_list_fault(members@, field) is None
                &&& coins@ == coin_list(coin_items(members@, field)->Ok_0)
                &&& forall|i: int| 0 <= i < coins@.len() ==> (#[trigger] coins@[i]).well_formed()
            },
            Err(e) => coin_list_fault(members@, field) == Some(e),
        },
{
    let items = match member(members, field) {
        Some(Json::Array(items)) => items,
        Some(_) => {
            return Err(DecodeError::SchemaMismatch { field, reason: Mismatch::NotList });
        },
        None => {
            return Err(DecodeError::SchemaMismatch { field, reason: Mismatch::Missing });
        },
    };
    let mut coins: Vec<CoinInfo> = Vec::new();
    let mut i: usize = 0;
    assert(items@.skip(0) =~= items@);
    while i < items.len()
        invariant
            i <= items.len(),
            coin_items(members@, field) == Ok::<Seq<Json>, DecodeError>(items@),
            coins_fault(items@) == coins_fault(items@.skip(i as int)),
            coins@.len() == i,
            forall|k: int| 0 <= k < i ==> (#[trigger] coins@[k]).well_formed(),
            forall|k: int| 0 <= k < i ==> coin_info_of(items@[k]) == Ok::<CoinInfo, DecodeError>(
                #[trigger] coins@[k],
            ),
        decreases items.len() - i,
    {
        assert(items@.skip(i as int).drop_first() =~= items@.skip(i as int + 1));
        assert(items@.skip(i as int)[0] == items@[i as int]);
        match CoinInfo::decode(&items[i]) {
            Ok(coin) => {
                coins.push(coin);
            },
            Err(e) => {
                return Err(e);
            },
        }
        i += 1;
    }
    assert(coins@ =~= coin_list(items@));
    Ok(coins)
}

/// The balance of one account.
#[derive(Clone, Debug, PartialEq)]
pub struct AccountInfo {
    pub total_equity: Decimal,
    pub account_im_rate: Decimal,
    pub total_margin_balance: Decimal,
    pub total_initial_margin: Decimal,
    pub account_type: String,
    pub total_available_balance: Decimal,
    pub account_mm_rate: Decimal,
    pub total_perp_upl: Decimal,
    pub total_wallet_balance: Decimal,
    pub account_ltv: Decimal,
    pub total_maintenance_margin: Decimal,
    pub coin: Vec<CoinInfo>,
}

impl AccountInfo {
    /// Whether every numeric field holds a decimal number.
    pub open spec fn well_formed(self) -> bool {
        &&& self.total_equity.well_formed()
        &&& self.account_im_rate.well_formed()
        &&& self.total_margin_balance.well_formed()
        &&& self.total_initial_margin.well_formed()
        &&& self.total_available_balance.well_formed()
        &&& self.account_mm_rate.well_formed()
        &&& self.total_perp_upl.well_formed()
        &&& self.total_wallet_balance.well_formed()
        &&& self.account_ltv.well_formed()
        &&& self.total_maintenance_margin.well_formed()
        &&& forall|i: int| 0 <= i < self.coin@.len() ==> (#[trigger] self.coin@[i]).well_formed()
    }
}

/// The error of the first member, in the order of the fields, that a
/// `AccountInfo` cannot be read from; `None` where all of them can.
pub open spec fn account_info_fault(members: Seq<(String, Json)>) -> Option<DecodeError> {
    before(fault_of(decimal_field(members, "totalEquity")),
    before(fault_of(decimal_field(members, "accountIMRate")),
    before(fault_of(decimal_field(members, "totalMarginBalance")),
    before(fault_of(decimal_field(members, "totalInitialMargin")),
    before(fault_of(text_field(members, "accountType")),
    before(fault_of(decimal_field(members, "totalAvailableBalance")),
    before(fault_of(decimal_field(members, "accountMMRate")),
    before(fault_of(decimal_field(members, "totalPerpUPL")),
    before(fault_of(decimal_field(members, "totalWalletBalance")),
    before(fault_of(decimal_field(members, "accountLTV")),
    before(fault_of(decimal_field(members, "totalMaintenanceMargin")),
    before(coin_list_fault(members, "coin"),
    None))))))))))))
}

/// The `AccountInfo` that the members spell, around a list of coins that is given.
pub open spec fn account_info_with(members: Seq<(String, Json)>, coin: Vec<CoinInfo>) -> AccountInfo {
    AccountInfo {
        total_equity: decimal_field(members, "totalEquity")->Ok_0,
        account_im_rate: decimal_field(members, "accountIMRate")->Ok_0,
        total_margin_balance: decimal_field(members, "totalMarginBalance")->Ok_0,
        total_initial_margin: decimal_field(members, "totalInitialMargin")->Ok_0,
        account_type: text_field(members, "accountType")->Ok_0,
        total_available_balance: decimal_field(members, "totalAvailableBalance")->Ok_0,
        account_mm_rate: decimal_field(members, "accountMMRate")->Ok_0,
        total_perp_upl: decimal_field(members, "totalPerpUPL")->Ok_0,
        total_wallet_balance: decimal_field(members, "totalWalletBalance")->Ok_0,
        account_ltv: decimal_field(members, "accountLTV")->Ok_0,
        total_maintenance_margin: decimal_field(members, "totalMaintenanceMargin")->Ok_0,
        coin,
    }
}

/// The error that decoding a JSON value as a `AccountInfo` ends in; `None` where
/// it succeeds.
pub open spec fn account_info_error(value: Json) -> Option<DecodeError> {
    match members_of(value, "account_info") {
        Ok(members) => account_info_fault(members),
        Err(e) => Some(e),
    }
}

impl AccountInfo {
    /// Reads a `AccountInfo` out of a JSON object.
    pub fn decode(value: &Json) -> (r: Result<AccountInfo, DecodeError>)
        ensures
            match r {
                Ok(record) => {
                    &&& account_info_error(*value) is None
                    &&& record == account_info_with(value->Object_0@, record.coin)
                    &&& record.coin@ == coin_list(coin_items(value->Object_0@, "coin")->Ok_0)
                },
                Err(e) => account_info_error(*value) == Some(e),
            },
            r matches Ok(record) ==> record.well_formed(),
    {
        let members = read_members(value, "account_info")?;
        let total_equity = read_decimal(members, "totalEquity")?;
        let account_im_rate = read_decimal(members, "accountIMRate")?;
        let total_margin_balance = read_decimal(members, "totalMarginBalance")?;
        let total_initial_margin = read_decimal(members, "totalInitialMargin")?;
        let account_type = read_text(members, "accountType")?;
        let total_available_balance = read_decimal(members, "totalAvailableBalance")?;
        let account_mm_rate = read_decimal(members, "accountMMRate")?;
        let total_perp_upl = read_decimal(members, "totalPerpUPL")?;
        let total_wallet_balance = read_decimal(members, "totalWalletBalance")?;
        let account_ltv = read_decimal(members, "accountLTV")?;
        let total_maintenance_margin = read_decimal(members, "totalMaintenanceMargin")?;
        let coin = read_coins(members, "coin")?;
        Ok(
            AccountInfo {
                total_equity,
                account_im_rate,
                total_margin_balance,
                total_initial_margin,
                account_type,
                total_available_balance,
                account_mm_rate,
                total_perp_upl,
                total_wallet_balance,
                account_ltv,
                total_maintenance_margin,
                coin,
            },
        )
    }
}

/// The leverage that a contract allows.
#[derive(Clone, Debug, PartialEq)]
pub struct LeverageFilter {
    pub min_leverage: Decimal,
    pub max_leverage: Decimal,
    pub leverage_step: Decimal,
}

impl LeverageFilter {
    /// Whether every numeric field holds a decimal number.
    pub open spec fn well_formed(self) -> bool {
        &&& self.min_leverage.well_formed()
        &&& self.max_leverage.well_formed()
        &&& self.leverage_step.well_formed()
    }
}

/// The error of the first member, in the order of the fields, that a
/// `LeverageFilter` cannot be read from; `None` where all of them can.
pub open spec fn leverage_filter_fault(members: Seq<(String, Json)>) -> Option<DecodeError> {
    before(fault_of(decimal_field(members, "minLeverage")),
    before(fault_of(decimal_field(members, "maxLeverage")),
    before(fault_of(decimal_field(members, "leverageStep")),
    None)))
}

/// The `LeverageFilter` that the members spell, where none of them is at fault.
pub open spec fn leverage_filter_from(members: Seq<(String, Json)>) -> LeverageFilter {
    LeverageFilter {
        min_leverage: decimal_field(members, "minLeverage")->Ok_0,
        max_leverage: decimal_field(members, "maxLeverage")->Ok_0,
        leverage_step: decimal_field(members, "leverageStep")->Ok_0,
    }
}

/// What a JSON value decodes to as a `LeverageFilter`.
pub open spec fn leverage_filter_of(value: Json) -> Result<LeverageFilter, DecodeError> {
    match members_of(value, "leverage_filter") {
        Ok(members) => match leverage_filter_fault(members) {
            Some(e) => Err(e),
            None => Ok(leverage_filter_from(members)),
        },
        Err(e) => Err(e),
    }
}

impl LeverageFilter {
    /// Reads a `LeverageFilter` out of a JSON object.
    pub fn decode(value: &Json) -> (r: Result<LeverageFilter, DecodeError>)
        ensures
            r == leverage_filter_of(*value),
            r matches Ok(record) ==> record.well_formed(),
    {
        let members = read_members(value, "leverage_filter")?;
        let min_leverage = read_decimal(members, "minLeverage")?;
        let max_leverage = read_decimal(members, "maxLeverage")?;
        let leverage_step = read_decimal(members, "leverageStep")?;
        Ok(
            LeverageFilter {
                min_leverage,
                max_leverage,
                leverage_step,
            },
        )
    }
}

/// A member of a record that holds a `LeverageFilter`.
pub open spec fn leverage_filter_field(members: Seq<(String, Json)>, field: &'static str) -> Result<
    LeverageFilter,
    DecodeError,
> {
    match find_member(members, field@) {
        Some(value) => leverage_filter_of(value),
        None => Err(missing(field)),
    }
}

/// Reads a member of a record that holds a `LeverageFilter`.
pub fn read_leverage_filter(members: &Vec<(String, Json)>, field: &'static str) -> (r: Result<
    LeverageFilter,
    DecodeError,
>)
    ensures
        r == leverage_filter_field(members@, field),
        r matches Ok(record) ==> record.well_formed(),
{
    match member(members, field) {
        Some(value) => LeverageFilter::decode(value),
        None => Err(DecodeError::SchemaMismatch { field, reason: Mismatch::Missing }),
    }
}

/// The prices that a contract allows.
#[derive(Clone, Debug, PartialEq)]
pub struct PriceFilter {
    pub min_price: Decimal,
    pub max_price: Decimal,
    pub tick_size: Decimal,
}

impl PriceFilter {
    /// Whether every numeric field holds a decimal number.
    pub open spec fn well_formed(self) -> bool {
        &&& self.min_price.well_formed()
        &&& self.max_price.well_formed()
        &&& self.tick_size.well_formed()
    }
}

/// The error of the first member, in the order of the fields, that a
/// `PriceFilter` cannot be read from; `None` where all of them can.
pub open spec fn price_filter_fault(members: Seq<(String, Json)>) -> Option<DecodeError> {
    before(fault_of(decimal_field(members, "minPrice")),
    before(fault_of(decimal_field(members, "maxPrice")),
    before(fault_of(decimal_field(members, "tickSize")),
    None)))
}

/// The `PriceFilter` that the members spell, where none of them is at fault.
pub open spec fn price_filter_from(members: Seq<(String, Json)>) -> PriceFilter {
    PriceFilter {
        min_price: decimal_field(members, "minPrice")->Ok_0,
        max_price: decimal_field(members, "maxPrice")->Ok_0,
        tick_size: decimal_field(members, "tickSize")->Ok_0,
    }
}

/// What a JSON value decodes to as a `PriceFilter`.
pub open spec fn price_filter_of(value: Json) -> Result<PriceFilter, DecodeError> {
    match members_of(value, "price_filter") {
        Ok(members) => match price_filter_fault(members) {
            Some(e) => Err(e),
            None => Ok(price_filter_from(members)),
        },
        Err(e) => Err(e),
    }
}

impl PriceFilter {
    /// Reads a `PriceFilter` out of a JSON object.
    pub fn decode(value: &Json) -> (r: Result<PriceFilter, DecodeError>)
        ensures
            r == price_filter_of(*value),
            r matches Ok(record) ==> record.well_formed(),
    {
        let members = read_members(value, "price_filter")?;
        let min_price = read_decimal(members, "minPrice")?;
        let max_price = read_decimal(members, "maxPrice")?;
        let tick_size = read_decimal(members, "tickSize")?;
        Ok(
            PriceFilter {
                min_price,
                max_price,
                tick_size,
            },
        )
    }
}

/// A member of a record that holds a `PriceFilter`.
pub open spec fn price_filter_field(members: Seq<(String, Json)>, field: &'static str) -> Result<
    PriceFilter,
    DecodeError,
> {
    match find_member(members, field@) {
        Some(value) => price_filter_of(value),
        None => Err(missing(field)),
    }
}

/// Reads a member of a record that holds a `PriceFilter`.
pub fn read_price_filter(members: &Vec<(String, Json)>, field: &'static str) -> (r: Result<
    PriceFilter,
    DecodeError,
>)
    ensures
        r == price_filter_field(members@, field),
        r matches Ok(record) ==> record.well_formed(),
{
    match member(members, field) {
        Some(value) => PriceFilter::decode(value),
        None => Err(DecodeError::SchemaMismatch { field, reason: Mismatch::Missing }),
    }
}

/// The order sizes that a contract allows.
#[derive(Clone, Debug, PartialEq)]
pub struct LotSizeFilter {
    pub max_order_qty: Decimal,
    pub min_order_qty: Decimal,
    pub qty_step: Decimal,
    pub post_only_max_order_qty: Decimal,
    pub max_mkt_order_qty: Decimal,
    pub min_notional_value: Decimal,
}

impl LotSizeFilter {
    /// Whether every numeric field holds a decimal number.
    pub open spec fn well_formed(self) -> bool {
        &&& self.max_order_qty.well_formed()
        &&& self.min_order_qty.well_formed()
        &&& self.qty_step.well_formed()
        &&& self.post_only_max_order_qty.well_formed()
        &&& self.max_mkt_order_qty.well_formed()
        &&& self.min_notional_value.well_formed()
    }
}

/// The error of the first member, in the order of the fields, that a
/// `LotSizeFilter` cannot be read from; `None` where all of them can.
pub open spec fn lot_size_filter_fault(members: Seq<(String, Json)>) -> Option<DecodeError> {
    before(fault_of(decimal_field(members, "maxOrderQty")),
    before(fault_of(decimal_field(members, "minOrderQty")),
    before(fault_of(decimal_field(members, "qtyStep")),
    before(fault_of(decimal_field(members, "postOnlyMaxOrderQty")),
    before(fault_of(decimal_field(members, "maxMktOrderQty")),
    before(fault_of(decimal_field(members, "minNotionalValue")),
    None))))))
}

/// The `LotSizeFilter` that the members spell, where none of them is at fault.
pub open spec fn lot_size_filter_from(members: Seq<(String, Json)>) -> LotSizeFilter {
    LotSizeFilter {
        max_order_qty: decimal_field(members, "maxOrderQty")->Ok_0,
        min_order_qty: decimal_field(members, "minOrderQty")->Ok_0,
        qty_step: decimal_field(members, "qtyStep")->Ok_0,
        post_only_max_order_qty: decimal_field(members, "postOnlyMaxOrderQty")->Ok_0,
        max_mkt_order_qty: decimal_field(members, "maxMktOrderQty")->Ok_0,
        min_notional_value: decimal_field(members, "minNotionalValue")->Ok_0,
    }
}

/// What a JSON value decodes to as a `LotSizeFilter`.
pub open spec fn lot_size_filter_of(value: Json) -> Result<LotSizeFilter, DecodeError> {
    match members_of(value, "lot_size_filter") {
        Ok(members) => match lot_size_filter_fault(members) {
            Some(e) => Err(e),
            None => Ok(lot_size_filter_from(members)),
        },
        Err(e) => Err(e),
    }
}

impl LotSizeFilter {
    /// Reads a `LotSizeFilter` out of a JSON object.
    pub fn decode(value: &Json) -> (r: Result<LotSizeFilter, DecodeError>)
        ensures
            r == lot_size_filter_of(*value),
            r matches Ok(record) ==> record.well_formed(),
    {
        let members = read_members(value, "lot_size_filter")?;
        let max_order_qty = read_decimal(members, "maxOrderQty")?;
        let min_order_qty = read_decimal(members, "minOrderQty")?;
        let qty_step = read_decimal(members, "qtyStep")?;
        let post_only_max_order_qty = read_decimal(members, "postOnlyMaxOrderQty")?;
        let max_mkt_order_qty = read_decimal(members, "maxMktOrderQty")?;
        let min_notional_value = read_decimal(members, "minNotionalValue")?;
        Ok(
            LotSizeFilter {
                max_order_qty,
                min_order_qty,
                qty_step,
                post_only_max_order_qty,
                max_mkt_order_qty,
                min_notional_value,
            },
        )
    }
}

/// A member of a record that holds a `LotSizeFilter`.
pub open spec fn lot_size_filter_field(members: Seq<(String, Json)>, field: &'static str) -> Result<
    LotSizeFilter,
    DecodeError,
> {
    match find_member(members, field@) {
        Some(value) => lot_size_filter_of(value),
        None => Err(missing(field)),
    }
}

/// Reads a member of a record that holds a `LotSizeFilter`.
pub fn read_lot_size_filter(members: &Vec<(String, Json)>, field: &'static str) -> (r: Result<
    LotSizeFilter,
    DecodeError,
>)
    ensures
        r == lot_size_filter_field(members@, field),
        r matches Ok(record) ==> record.well_formed(),
{
    match member(members, field) {
        Some(value) => LotSizeFilter::decode(value),
        None => Err(DecodeError::SchemaMismatch { field, reason: Mismatch::Missing }),
    }
}

/// The terms of one contract.
#[derive(Clone, Debug, PartialEq)]
pub struct ContractInfo {
    pub symbol: String,
    pub contract_type: String,
    pub status: String,
    pub base_coin: String,
    pub quote_coin: String,
    pub launch_time: String,
    pub delivery_time: String,
    pub delivery_fee_rate: String,
    pub price_scale: Decimal,
    pub leverage_filter: LeverageFilter,
    pub price_filter: PriceFilter,
    pub lot_size_filter: LotSizeFilter,
    pub unified_margin_trade: bool,
    pub funding_interval: i32,
    pub settle_coin: String,
    pub copy_trading: String,
    pub upper_funding_rate: Decimal,
    pub lower_funding_rate: Decimal,
}

impl ContractInfo {
    /// Whether every numeric field holds a decimal number.
    pub open spec fn well_formed(self) -> bool {
        &&& self.price_scale.well_formed()
        &&& self.leverage_filter.well_formed()
        &&& self.price_filter.well_formed()
        &&& self.lot_size_filter.well_formed()
        &&& self.upper_funding_rate.well_formed()
        &&& self.lower_funding_rate.well_formed()
    }
}

/// The error of the first member, in the order of the fields, that a
/// `ContractInfo` cannot be read from; `None` where all of them can.
pub open spec fn contract_info_fault(members: Seq<(String, Json)>) -> Option<DecodeError> {
    before(fault_of(text_field(members, "symbol")),
    before(fault_of(text_field(members, "contractType")),
    before(fault_of(text_field(members, "status")),
    before(fault_of(text_field(members, "baseCoin")),
    before(fault_of(text_field(members, "quoteCoin")),
    before(fault_of(text_field(members, "launchTime")),
    before(fault_of(text_field(members, "deliveryTime")),
    before(fault_of(text_field(members, "deliveryFeeRate")),
    before(fault_of(decimal_field(members, "priceScale")),
    before(fault_of(leverage_filter_field(members, "leverageFilter")),
    before(fault_of(price_filter_field(members, "priceFilter")),
    before(fault_of(lot_size_filter_field(members, "lotSizeFilter")),
    before(fault_of(flag_field(members, "unifiedMarginTrade")),
    before(fault_of(i32_field(members, "fundingInterval")),
    before(fault_of(text_field(members, "settleCoin")),
    before(fault_of(text_field(members, "copyTrading")),
    before(fault_of(decimal_field(members, "upperFundingRate")),
    before(fault_of(decimal_field(members, "lowerFundingRate")),
    None))))))))))))))))))
}

/// The `ContractInfo` that the members spell, where none of them is at fault.
pub open spec fn contract_info_from(members: Seq<(String, Json)>) -> ContractInfo {
    ContractInfo {
        symbol: text_field(members, "symbol")->Ok_0,
        contract_type: text_field(members, "contractType")->Ok_0,
        status: text_field(members, "status")->Ok_0,
        base_coin: text_field(members, "baseCoin")->Ok_0,
        quote_coin: text_field(members, "quoteCoin")->Ok_0,
        launch_time: text_field(members, "launchTime")->Ok_0,
        delivery_time: text_field(members, "deliveryTime")->Ok_0,
        delivery_fee_rate: text_field(members, "deliveryFeeRate")->Ok_0,
        price_scale: decimal_field(members, "priceScale")->Ok_0,
        leverage_filter: leverage_filter_field(members, "leverageFilter")->Ok_0,
        price_filter: price_filter_field(members, "priceFilter")->Ok_0,
        lot_size_filter: lot_size_filter_field(members, "lotSizeFilter")->Ok_0,
        unified_margin_trade: flag_field(members, "unifiedMarginTrade")->Ok_0,
        funding_interval: i32_field(members, "fundingInterval")->Ok_0,
        settle_coin: text_field(members, "settleCoin")->Ok_0,
        copy_trading: text_field(members, "copyTrading")->Ok_0,
        upper_funding_rate: decimal_field(members, "upperFundingRate")->Ok_0,
        lower_funding_rate: decimal_field(members, "lowerFundingRate")->Ok_0,
    }
}

/// What a JSON value decodes to as a `ContractInfo`.
pub open spec fn contract_info_of(value: Json) -> Result<ContractInfo, DecodeError> {
    match members_of(value, "contract_info") {
        Ok(members) => match contract_info_fault(members) {
            Some(e) => Err(e),
            None => Ok(contract_info_from(members)),
        },
        Err(e) => Err(e),
    }
}

impl ContractInfo {
    /// Reads a `ContractInfo` out of a JSON object.
    pub fn decode(value: &Json) -> (r: Result<ContractInfo, DecodeError>)
        ensures
            r == contract_info_of(*value),
            r matches Ok(record) ==> record.well_formed(),
    {
        let members = read_members(value, "contract_info")?;
        let symbol = read_text(members, "symbol")?;
        let contract_type = read_text(members, "contractType")?;
        let status = read_text(members, "status")?;
        let base_coin = read_text(members, "baseCoin")?;
        let quote_coin = read_text(members, "quoteCoin")?;
        let launch_time = read_text(members, "launchTime")?;
        let delivery_time = read_text(members, "deliveryTime")?;
        let delivery_fee_rate = read_text(members, "deliveryFeeRate")?;
        let price_scale = read_decimal(members, "priceScale")?;
        let leverage_filter = read_leverage_filter(members, "leverageFilter")?;
        let price_filter = read_price_filter(members, "priceFilter")?;
        let lot_size_filter = read_lot_size_filter(members, "lotSizeFilter")?;
        let unified_margin_trade = read_flag(members, "unifiedMarginTrade")?;
        let funding_interval = read_i32(members, "fundingInterval")?;
        let settle_coin = read_text(members, "settleCoin")?;
        let copy_trading = read_text(members, "copyTrading")?;
        let upper_funding_rate = read_decimal(members, "upperFundingRate")?;
        let lower_funding_rate = read_decimal(members, "lowerFundingRate")?;
        Ok(
            ContractInfo {
                symbol,
                contract_type,
                status,
                base_coin,
                quote_coin,
                launch_time,
                delivery_time,
                delivery_fee_rate,
                price_scale,
                leverage_filter,
                price_filter,
                lot_size_filter,
                unified_margin_trade,
                funding_interval,
                settle_coin,
                copy_trading,
                upper_funding_rate,
                lower_funding_rate,
            },
        )
    }
}

/// One open position.
#[derive(Clone, Debug, PartialEq)]
pub struct PositionInfo {
    pub adl_rank_indicator: i32,
    pub auto_add_margin: i32,
    pub avg_price: Decimal,
    pub bust_price: String,
    pub created_time: String,
    pub cum_realised_pnl: Decimal,
    pub cur_realised_pnl: Decimal,
    pub is_reduce_only: bool,
    pub leverage: Decimal,
    pub leverage_sys_updated_time: String,
    pub mark_price: Decimal,
    pub mmr_sys_updated_time: String,
    pub position_balance: Decimal,
    pub position_im: Decimal,
    pub position_idx: i32,
    pub position_mm: Decimal,
    pub position_status: String,
    pub position_value: Decimal,
    pub risk_id: i32,
    pub risk_limit_value: Decimal,
    pub seq: i64,
    pub session_avg_price: String,
    pub side: String,
    pub size: Decimal,
    pub stop_loss: String,
    pub symbol: String,
    pub take_profit: String,
    pub tpsl_mode: String,
    pub trade_mode: i32,
    pub trailing_stop: Decimal,
    pub unrealised_pnl: Decimal,
    pub updated_time: String,
}

impl PositionInfo {
    /// Whether every numeric field holds a decimal number.
    pub open spec fn well_formed(self) -> bool {
        &&& self.avg_price.well_formed()
        &&& self.cum_realised_pnl.well_formed()
        &&& self.cur_realised_pnl.well_formed()
        &&& self.leverage.well_formed()
        &&& self.mark_price.well_formed()
        &&& self.position_balance.well_formed()
        &&& self.position_im.well_formed()
        &&& self.position_mm.well_formed()
        &&& self.position_value.well_formed()
        &&& self.risk_limit_value.well_formed()
        &&& self.size.well_formed()
        &&& self.trailing_stop.well_formed()
        &&& self.unrealised_pnl.well_formed()
    }
}

/// The error of the first member, in the order of the fields, that a
/// `PositionInfo` cannot be read from; `None` where all of them can.
pub open spec fn position_info_fault(members: Seq<(String, Json)>) -> Option<DecodeError> {
    before(fault_of(i32_field(members, "adlRankIndicator")),
    before(fault_of(i32_field(members, "autoAddMargin")),
    before(fault_of(decimal_field(members, "avgPrice")),
    before(fault_of(text_field(members, "bustPrice")),
    before(fault_of(text_field(members, "createdTime")),
    before(fault_of(decimal_field(members, "cumRealisedPnl")),
    before(fault_of(decimal_field(members, "curRealisedPnl")),
    before(fault_of(flag_field(members, "isReduceOnly")),
    before(fault_of(decimal_field(members, "leverage")),
    before(fault_of(text_field(members, "leverageSysUpdatedTime")),
    before(fault_of(decimal_field(members, "markPrice")),
    before(fault_of(text_field(members, "mmrSysUpdatedTime")),
    before(fault_of(decimal_field(members, "positionBalance")),
    before(fault_of(decimal_field(members, "positionIM")),
    before(fault_of(i32_field(members, "positionIdx")),
    before(fault_of(decimal_field(members, "positionMM")),
    before(fault_of(text_field(members, "positionStatus")),
    before(fault_of(decimal_field(members, "positionValue")),
    before(fault_of(i32_field(members, "riskId")),
    before(fault_of(decimal_field(members, "riskLimitValue")),
    before(fault_of(i64_field(members, "seq")),
    before(fault_of(text_field(members, "sessionAvgPrice")),
    before(fault_of(text_field(members, "side")),
    before(fault_of(decimal_field(members, "size")),
    before(fault_of(text_field(members, "stopLoss")),
    before(fault_of(text_field(members, "symbol")),
    before(fault_of(text_field(members, "takeProfit")),
    before(fault_of(text_field(members, "tpslMode")),
    before(fault_of(i32_field(members, "tradeMode")),
    before(fault_of(decimal_field(members, "trailingStop")),
    before(fault_of(decimal_field(members, "unrealisedPnl")),
    before(fault_of(text_field(members, "updatedTime")),
    None))))))))))))))))))))))))))))))))
}

/// The `PositionInfo` that the members spell, where none of them is at fault.
pub open spec fn position_info_from(members: Seq<(String, Json)>) -> PositionInfo {
    PositionInfo {
        adl_rank_indicator: i32_field(members, "adlRankIndicator")->Ok_0,
        auto_add_margin: i32_field(members, "autoAddMargin")->Ok_0,
        avg_price: decimal_field(members, "avgPrice")->Ok_0,
        bust_price: text_field(members, "bustPrice")->Ok_0,
        created_time: text_field(members, "createdTime")->Ok_0,
        cum_realised_pnl: decimal_field(members, "cumRealisedPnl")->Ok_0,
        cur_realised_pnl: decimal_field(members, "curRealisedPnl")->Ok_0,
        is_reduce_only: flag_field(members, "isReduceOnly")->Ok_0,
        leverage: decimal_field(members, "leverage")->Ok_0,
        leverage_sys_updated_time: text_field(members, "leverageSysUpdatedTime")->Ok_0,
        mark_price: decimal_field(members, "markPrice")->Ok_0,
        mmr_sys_updated_time: text_field(members, "mmrSysUpdatedTime")->Ok_0,
        position_balance: decimal_field(members, "positionBalance")->Ok_0,
        position_im: decimal_field(members, "positionIM")->Ok_0,
        position_idx: i32_field(members, "positionIdx")->Ok_0,
        position_mm: decimal_field(members, "positionMM")->Ok_0,
        position_status: text_field(members, "positionStatus")->Ok_0,
        position_value: decimal_field(members, "positionValue")->Ok_0,
        risk_id: i32_field(members, "riskId")->Ok_0,
        risk_limit_value: decimal_field(members, "riskLimitValue")->Ok_0,
        seq: i64_field(members, "seq")->Ok_0,
        session_avg_price: text_field(members, "sessionAvgPrice")->Ok_0,
        side: text_field(members, "side")->Ok_0,
        size: decimal_field(members, "size")->Ok_0,
        stop_loss: text_field(members, "stopLoss")->Ok_0,
        symbol: text_field(members, "symbol")->Ok_0,
        take_profit: text_field(members, "takeProfit")->Ok_0,
        tpsl_mode: text_field(members, "tpslMode")->Ok_0,
        trade_mode: i32_field(members, "tradeMode")->Ok_0,
        trailing_stop: decimal_field(members, "trailingStop")->Ok_0,
        unrealised_pnl: decimal_field(members, "unrealisedPnl")->Ok_0,
        updated_time: text_field(members, "updatedTime")->Ok_0,
    }
}

/// What a JSON value decodes to as a `PositionInfo`.
pub open spec fn position_info_of(value: Json) -> Result<PositionInfo, DecodeError> {
    match members_of(value, "position_info") {
        Ok(members) => match position_info_fault(members) {
            Some(e) => Err(e),
            None => Ok(position_info_from(members)),
        },
        Err(e) => Err(e),
    }
}

impl PositionInfo {
    /// Reads a `PositionInfo` out of a JSON object.
    pub fn decode(value: &Json) -> (r: Result<PositionInfo, DecodeError>)
        ensures
            r == position_info_of(*value),
            r matches Ok(record) ==> record.well_formed(),
    {
        let members = read_members(value, "position_info")?;
        let adl_rank_indicator = read_i32(members, "adlRankIndicator")?;
        let auto_add_margin = read_i32(members, "autoAddMargin")?;
        let avg_price = read_decimal(members, "avgPrice")?;
        let bust_price = read_text(members, "bustPrice")?;
        let created_time = read_text(members, "createdTime")?;
        let cum_realised_pnl = read_decimal(members, "cumRealisedPnl")?;
        let cur_realised_pnl = read_decimal(members, "curRealisedPnl")?;
        let is_reduce_only = read_flag(members, "isReduceOnly")?;
        let leverage = read_decimal(members, "leverage")?;
        let leverage_sys_updated_time = read_text(members, "leverageSysUpdatedTime")?;
        let mark_price = read_decimal(members, "markPrice")?;
        let mmr_sys_updated_time = read_text(members, "mmrSysUpdatedTime")?;
        let position_balance = read_decimal(members, "positionBalance")?;
        let position_im = read_decimal(members, "positionIM")?;
        let position_idx = read_i32(members, "positionIdx")?;
        let position_mm = read_decimal(members, "positionMM")?;
        let position_status = read_text(members, "positionStatus")?;
        let position_value = read_decimal(members, "positionValue")?;
        let risk_id = read_i32(members, "riskId")?;
        let risk_limit_value = read_decimal(members, "riskLimitValue")?;
        let seq = read_i64(members, "seq")?;
        let session_avg_price = read_text(members, "sessionAvgPrice")?;
        let side = read_text(members, "side")?;
        let size = read_decimal(members, "size")?;
        let stop_loss = read_text(members, "stopLoss")?;
        let symbol = read_text(members, "symbol")?;
        let take_profit = read_text(members, "takeProfit")?;
        let tpsl_mode = read_text(members, "tpslMode")?;
        let trade_mode = read_i32(members, "tradeMode")?;
        let trailing_stop = read_decimal(members, "trailingStop")?;
        let unrealised_pnl = read_decimal(members, "unrealisedPnl")?;
        let updated_time = read_text(members, "updatedTime")?;
        Ok(
            PositionInfo {
                adl_rank_indicator,
                auto_add_margin,
                avg_price,
                bust_price,
                created_time,
                cum_realised_pnl,
                cur_realised_pnl,
                is_reduce_only,
                leverage,
                leverage_sys_updated_time,
                mark_price,
                mmr_sys_updated_time,
                position_balance,
                position_im,
                position_idx,
                position_mm,
                position_status,
                position_value,
                risk_id,
                risk_limit_value,
                seq,
                session_avg_price,
                side,
                size,
                stop_loss,
                symbol,
                take_profit,
                tpsl_mode,
                trade_mode,
                trailing_stop,
                unrealised_pnl,
                updated_time,
            },
        )
    }
}

/// The ticker of one symbol.
#[derive(Clone, Debug, PartialEq)]
pub struct TickerData {
    pub ask1_price: Decimal,
    pub ask1_size: Decimal,
    pub basis: String,
    pub basis_rate: String,
    pub bid1_price: Decimal,
    pub bid1_size: Decimal,
    pub cur_pre_listing_phase: String,
    pub delivery_fee_rate: String,
    pub delivery_time: Decimal,
    pub funding_rate: Decimal,
    pub high_price_24h: Decimal,
    pub index_price: Decimal,
    pub last_price: Decimal,
    pub low_price_24h: Decimal,
    pub mark_price: Decimal,
    pub next_funding_time: Decimal,
    pub open_interest: Decimal,
    pub open_interest_value: Decimal,
    pub pre_open_price: String,
    pub pre_qty: String,
    pub predicted_delivery_price: String,
    pub prev_price_1h: Decimal,
    pub prev_price_24h: Decimal,
    pub price_24h_pcnt: Decimal,
    pub symbol: String,
    pub turnover_24h: Decimal,
    pub volume_24h: Decimal,
}

impl TickerData {
    /// Whether every numeric field holds a decimal number.
    pub open spec fn well_formed(self) -> bool {
        &&& self.ask1_price.well_formed()
        &&& self.ask1_size.well_formed()
        &&& self.bid1_price.well_formed()
        &&& self.bid1_size.well_formed()
        &&& self.delivery_time.well_formed()
        &&& self.funding_rate.well_formed()
        &&& self.high_price_24h.well_formed()
        &&& self.index_price.well_formed()
        &&& self.last_price.well_formed()
        &&& self.low_price_24h.well_formed()
        &&& self.mark_price.well_formed()
        &&& self.next_funding_time.well_formed()
        &&& self.open_interest.well_formed()
        &&& self.open_interest_value.well_formed()
        &&& self.prev_price_1h.well_formed()
        &&& self.prev_price_24h.well_formed()
        &&& self.price_24h_pcnt.well_formed()
        &&& self.turnover_24h.well_formed()
        &&& self.volume_24h.well_formed()
    }
}

/// The error of the first member, in the order of the fields, that a
/// `TickerData` cannot be read from; `None` where all of them can.
pub open spec fn ticker_data_fault(members: Seq<(String, Json)>) -> Option<DecodeError> {
    before(fault_of(decimal_field(members, "ask1Price")),
    before(fault_of(decimal_field(members, "ask1Size")),
    before(fault_of(text_field(members, "basis")),
    before(fault_of(text_field(members, "basisRate")),
    before(fault_of(decimal_field(members, "bid1Price")),
    before(fault_of(decimal_field(members, "bid1Size")),
    before(fault_of(text_field(members, "curPreListingPhase")),
    before(fault_of(text_field(members, "deliveryFeeRate")),
    before(fault_of(decimal_field(members, "deliveryTime")),
    before(fault_of(decimal_field(members, "fundingRate")),
    before(fault_of(decimal_field(members, "highPrice24h")),
    before(fault_of(decimal_field(members, "indexPrice")),
    before(fault_of(decimal_field(members, "lastPrice")),
    before(fault_of(decimal_field(members, "lowPrice24h")),
    before(fault_of(decimal_field(members, "markPrice")),
    before(fault_of(decimal_field(members, "nextFundingTime")),
    before(fault_of(decimal_field(members, "openInterest")),
    before(fault_of(decimal_field(members, "openInterestValue")),
    before(fault_of(text_field(members, "preOpenPrice")),
    before(fault_of(text_field(members, "preQty")),
    before(fault_of(text_field(members, "predictedDeliveryPrice")),
    before(fault_of(decimal_field(members, "prevPrice1h")),
    before(fault_of(decimal_field(members, "prevPrice24h")),
    before(fault_of(decimal_field(members, "price24hPcnt")),
    before(fault_of(text_field(members, "symbol")),
    before(fault_of(decimal_field(members, "turnover24h")),
    before(fault_of(decimal_field(members, "volume24h")),
    None)))))))))))))))))))))))))))
}

/// The `TickerData` that the members spell, where none of them is at fault.
pub open spec fn ticker_data_from(members: Seq<(String, Json)>) -> TickerData {
    TickerData {
        ask1_price: decimal_field(members, "ask1Price")->Ok_0,
        ask1_size: decimal_field(members, "ask1Size")->Ok_0,
        basis: text_field(members, "basis")->Ok_0,
        basis_rate: text_field(members, "basisRate")->Ok_0,
        bid1_price: decimal_field(members, "bid1Price")->Ok_0,
        bid1_size: decimal_field(members, "bid1Size")->Ok_0,
        cur_pre_listing_phase: text_field(members, "curPreListingPhase")->Ok_0,
        delivery_fee_rate: text_field(members, "deliveryFeeRate")->Ok_0,
        delivery_time: decimal_field(members, "deliveryTime")->Ok_0,
        funding_rate: decimal_field(members, "fundingRate")->Ok_0,
        high_price_24h: decimal_field(members, "highPrice24h")->Ok_0,
        index_price: decimal_field(members, "indexPrice")->Ok_0,
        last_price: decimal_field(members, "lastPrice")->Ok_0,
        low_price_24h: decimal_field(members, "lowPrice24h")->Ok_0,
        mark_price: decimal_field(members, "markPrice")->Ok_0,
        next_funding_time: decimal_field(members, "nextFundingTime")->Ok_0,
        open_interest: decimal_field(members, "openInterest")->Ok_0,
        open_interest_value: decimal_field(members, "openInterestValue")->Ok_0,
        pre_open_price: text_field(members, "preOpenPrice")->Ok_0,
        pre_qty: text_field(members, "preQty")->Ok_0,
        predicted_delivery_price: text_field(members, "predictedDeliveryPrice")->Ok_0,
        prev_price_1h: decimal_field(members, "prevPrice1h")->Ok_0,
        prev_price_24h: decimal_field(members, "prevPrice24h")->Ok_0,
        price_24h_pcnt: decimal_field(members, "price24hPcnt")->Ok_0,
        symbol: text_field(members, "symbol")->Ok_0,
        turnover_24h: decimal_field(members, "turnover24h")->Ok_0,
        volume_24h: decimal_field(members, "volume24h")->Ok_0,
    }
}

/// What a JSON value decodes to as a `TickerData`.
pub open spec fn ticker_data_of(value: Json) -> Result<TickerData, DecodeError> {
    match members_of(value, "ticker_data") {
        Ok(members) => match ticker_data_fault(members) {
            Some(e) => Err(e),
            None => Ok(ticker_data_from(members)),
        },
        Err(e) => Err(e),
    }
}

impl TickerData {
    /// Reads a `TickerData` out of a JSON object.
    pub fn decode(value: &Json) -> (r: Result<TickerData, DecodeError>)
        ensures
            r == ticker_data_of(*value),
            r matches Ok(record) ==> record.well_formed(),
    {
        let members = read_members(value, "ticker_data")?;
        let ask1_price = read_decimal(members, "ask1Price")?;
        let ask1_size = read_decimal(members, "ask1Size")?;
        let basis = read_text(members, "basis")?;
        let basis_rate = read_text(members, "basisRate")?;
        let bid1_price = read_decimal(members, "bid1Price")?;
        let bid1_size = read_decimal(members, "bid1Size")?;
        let cur_pre_listing_phase = read_text(members, "curPreListingPhase")?;
        let delivery_fee_rate = read_text(members, "deliveryFeeRate")?;
        let delivery_time = read_decimal(members, "deliveryTime")?;
        let funding_rate = read_decimal(members, "fundingRate")?;
        let high_price_24h = read_decimal(members, "highPrice24h")?;
        let index_price = read_decimal(members, "indexPrice")?;
        let last_price = read_decimal(members, "lastPrice")?;
        let low_price_24h = read_decimal(members, "lowPrice24h")?;
        let mark_price = read_decimal(members, "markPrice")?;
        let next_funding_time = read_decimal(members, "nextFundingTime")?;
        let open_interest = read_decimal(members, "openInterest")?;
        let open_interest_value = read_decimal(members, "openInterestValue")?;
        let pre_open_price = read_text(members, "preOpenPrice")?;
        let pre_qty = read_text(members, "preQty")?;
        let predicted_delivery_price = read_text(members, "predictedDeliveryPrice")?;
        let prev_price_1h = read_decimal(members, "prevPrice1h")?;
        let prev_price_24h = read_decimal(members, "prevPrice24h")?;
        let price_24h_pcnt = read_decimal(members, "price24hPcnt")?;
        let symbol = read_text(members, "symbol")?;
        let turnover_24h = read_decimal(members, "turnover24h")?;
        let volume_24h = read_decimal(members, "volume24h")?;
        Ok(
            TickerData {
                ask1_price,
                ask1_size,
                basis,
                basis_rate,
                bid1_price,
                bid1_size,
                cur_pre_listing_phase,
                delivery_fee_rate,
                delivery_time,
                funding_rate,
                high_price_24h,
                index_price,
                last_price,
                low_price_24h,
                mark_price,
                next_funding_time,
                open_interest,
                open_interest_value,
                pre_open_price,
                pre_qty,
                predicted_delivery_price,
                prev_price_1h,
                prev_price_24h,
                price_24h_pcnt,
                symbol,
                turnover_24h,
                volume_24h,
            },
        )
    }
}

} // verus!
