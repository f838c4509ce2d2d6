//! The envelope that wraps every response, and the payloads of the
//! endpoints that this crate speaks to.

use vstd::prelude::*;
use crate::decode::{before, fault_of, DecodeError};
use crate::json::{find_member, json_parse, member, parse_text, same_text, Json};
use crate::numbers::{integer_within, parse_i64, parse_u128};
use crate::structures::{
    account_info_error, account_info_with, coin_info_of, coin_items, coin_list, contract_info_of,
    create_order_response_of, leverage_filter_of, lot_size_filter_of, order_of, position_info_of,
    price_filter_of, ticker_data_of, AccountInfo, CoinInfo, ContractInfo, CreateOrderResponse,
    LeverageFilter, LotSizeFilter, Order, PositionInfo, PriceFilter, TickerData,
};

verus! {

/// The outer shape of every response. `result` means something only where
/// `ret_code` is zero.
#[derive(Debug, PartialEq)]
pub struct BybitResponse {
    pub ret_code: i64,
    pub ret_msg: String,
    pub result: Json,
    pub ret_ext_info: Json,
    pub time: u128,
}

/// The value of an integer member, where the member is a number whose
/// literal is an integer between two bounds.
pub open spec fn integer_member(
    members: Seq<(String, Json)>,
    name: Seq<char>,
    low: int,
    high: int,
) -> Option<int> {
    match find_member(members, name) {
        Some(Json::Number(literal)) => integer_within(literal@, low, high),
        _ => None,
    }
}

/// The status code of an envelope: a signed 64-bit integer.
pub open spec fn status_member(members: Seq<(String, Json)>) -> Option<int> {
    integer_member(members, "retCode"@, i64::MIN as int, i64::MAX as int)
}

/// The time of an envelope: an unsigned 128-bit integer.
pub open spec fn time_member(members: Seq<(String, Json)>) -> Option<int> {
    integer_member(members, "time"@, 0, u128::MAX as int)
}

/// Whether the members of an object have the envelope's shape: `retCode` a
/// 64-bit signed integer, `retMsg` a string, `time` a 128-bit unsigned
/// integer, `result` and `retExtInfo` present.
pub open spec fn is_envelope(members: Seq<(String, Json)>) -> bool {
    &&& status_member(members) is Some
    &&& find_member(members, "retMsg"@) matches Some(Json::Text(_))
    &&& find_member(members, "result"@) is Some
    &&& find_member(members, "retExtInfo"@) is Some
    &&& time_member(members) is Some
}

/// The envelope that a parsed body holds. A body that did not parse, or that
/// has not the envelope's shape, is an invalid envelope.
pub open spec fn envelope_of(parsed: Option<Json>) -> Result<BybitResponse, DecodeError> {
    match parsed {
        Some(Json::Object(members)) => if is_envelope(members@) {
            Ok(
                BybitResponse {
                    ret_code: status_member(members@)->0 as i64,
                    ret_msg: find_member(members@, "retMsg"@)->0->Text_0,
                    result: find_member(members@, "result"@)->0,
                    ret_ext_info: find_member(members@, "retExtInfo"@)->0,
                    time: time_member(members@)->0 as u128,
                },
            )
        } else {
            Err(DecodeError::InvalidEnvelope)
        },
        _ => Err(DecodeError::InvalidEnvelope),
    }
}

/// The payload of an envelope: its `result` where the status is zero, else
/// the exchange's own code and message.
pub open spec fn payload_of(envelope: BybitResponse) -> Result<Json, DecodeError> {
    if envelope.ret_code == 0 {
        Ok(envelope.result)
    } else {
        Err(DecodeError::ExchangeError { code: envelope.ret_code, message: envelope.ret_msg })
    }
}

/// The payload that a parsed body carries.
pub open spec fn response_payload(parsed: Option<Json>) -> Result<Json, DecodeError> {
    match envelope_of(parsed) {
        Ok(envelope) => payload_of(envelope),
        Err(e) => Err(e),
    }
}

/// The place of the first member of a name in a member list.
fn member_index(members: &Vec<(String, Json)>, name: &str) -> (r: Option<usize>)
    ensures
        match r {
            Some(i) => i < members.len() && find_member(members@, name@) == Some(members@[i as int].1)
                && members@[i as int].0@ == name@,
            None => find_member(members@, name@) is None,
        },
{
    let mut i: usize = 0;
    assert(members@.skip(0) =~= members@);
    while i < members.len()
        invariant
            i <= members.len(),
            find_member(members@, name@) == find_member(members@.skip(i as int), name@),
        decreases members.len() - i,
    {
        if same_text(members[i].0.as_str(), name) {
            return Some(i);
        }
        assert(members@.skip(i as int).drop_first() =~= members@.skip(i as int + 1));
        i += 1;
    }
    None
}

/// Reads the envelope out of a parsed body.
pub fn envelope_from(parsed: Option<Json>) -> (r: Result<BybitResponse, DecodeError>)
    ensures
        r == envelope_of(parsed),
{
    let mut members = match parsed {
        Some(Json::Object(members)) => members,
        _ => {
            return Err(DecodeError::InvalidEnvelope);
        },
    };
    let ret_code = match member(&members, "retCode") {
        Some(Json::Number(literal)) => match parse_i64(literal.as_str()) {
            Some(code) => code,
            None => {
                return Err(DecodeError::InvalidEnvelope);
            },
        },
        _ => {
            return Err(DecodeError::InvalidEnvelope);
        },
    };
    let ret_msg = match member(&members, "retMsg") {
        Some(Json::Text(text)) => text.clone(),
        _ => {
            return Err(DecodeError::InvalidEnvelope);
        },
    };
    let time = match member(&members, "time") {
        Some(Json::Number(literal)) => match parse_u128(literal.as_str()) {
            Some(time) => time,
            None => {
                return Err(DecodeError::InvalidEnvelope);
            },
        },
        _ => {
            return Err(DecodeError::InvalidEnvelope);
        },
    };
    let result_at = match member_index(&members, "result") {
        Some(i) => i,
        None => {
            return Err(DecodeError::InvalidEnvelope);
        },
    };
    let ext_at = match member_index(&members, "retExtInfo") {
        Some(i) => i,
        None => {
            return Err(DecodeError::InvalidEnvelope);
        },
    };
    proof {
        reveal_strlit("result");
        reveal_strlit("retExtInfo");
        assert("result"@.len() == 6 && "retExtInfo"@.len() == 10);
    }
    let (result, ret_ext_info) = if result_at < ext_at {
        let ext = members.remove(ext_at);
        let result = members.remove(result_at);
        (result.1, ext.1)
    } else {
        let result = members.remove(result_at);
        let ext = members.remove(ext_at);
        (result.1, ext.1)
    };
    Ok(BybitResponse { ret_code, ret_msg, result, ret_ext_info, time })
}

/// Checks the status of an envelope and hands out its payload.
pub fn payload_from(envelope: BybitResponse) -> (r: Result<Json, DecodeError>)
    ensures
        r == payload_of(envelope),
{
    if envelope.ret_code == 0 {
        Ok(envelope.result)
    } else {
        Err(DecodeError::ExchangeError { code: envelope.ret_code, message: envelope.ret_msg })
    }
}

/// Reads the payload out of a parsed body.
pub fn payload_from_parsed(parsed: Option<Json>) -> (r: Result<Json, DecodeError>)
    ensures
        r == response_payload(parsed),
{
    match envelope_from(parsed) {
        Ok(envelope) => payload_from(envelope),
        Err(e) => Err(e),
    }
}

/// Decodes the envelope of a response body.
pub fn decode_envelope(body: &str) -> (r: Result<BybitResponse, DecodeError>)
    ensures
        r == envelope_of(json_parse(body@)),
{
    envelope_from(parse_text(body))
}

/// Decodes a response body down to its payload.
pub fn decode_payload(body: &str) -> (r: Result<Json, DecodeError>)
    ensures
        r == response_payload(json_parse(body@)),
{
    payload_from_parsed(parse_text(body))
}

/// The error of the first item of a list that is no `Order`; `None` where
/// every item is one.
pub open spec fn orders_fault(items: Seq<Json>) -> Option<DecodeError>
    decreases items.len(),
{
    if items.len() == 0 {
        None
    } else {
        before(fault_of(order_of(items[0])), orders_fault(items.drop_first()))
    }
}

/// The orders that the items of a list spell, item by item.
pub open spec fn order_list(items: Seq<Json>) -> Seq<Order> {
    Seq::new(items.len(), |i: int| order_of(items[i])->Ok_0)
}

/// The items of a payload's `list` member. A payload that is no object, or
/// has no such member, or has one that is no array, lacks its list.
pub open spec fn list_of(payload: Json) -> Result<Seq<Json>, DecodeError> {
    match payload {
        Json::Object(members) => match find_member(members@, "list"@) {
            Some(Json::Array(items)) => Ok(items@),
            _ => Err(DecodeError::MissingListField),
        },
        _ => Err(DecodeError::MissingListField),
    }
}

/// The error that reading a payload as a list of orders ends in; `None`
/// where it succeeds.
pub open spec fn orders_error(payload: Json) -> Option<DecodeError> {
    match list_of(payload) {
        Ok(items) => orders_fault(items),
        Err(e) => Some(e),
    }
}

/// The first item of a payload's list: the account of a balance query.
pub open spec fn first_of_list(payload: Json) -> Result<Json, DecodeError> {
    match list_of(payload) {
        Ok(items) => if items.len() == 0 {
            Err(DecodeError::EmptyList)
        } else {
            Ok(items[0])
        },
        Err(e) => Err(e),
    }
}

/// The error that reading a payload as an account ends in; `None` where it
/// succeeds.
pub open spec fn account_error(payload: Json) -> Option<DecodeError> {
    match first_of_list(payload) {
        Ok(item) => account_info_error(item),
        Err(e) => Some(e),
    }
}

fn list_from(payload: &Json) -> (r: Result<&Vec<Json>, DecodeError>)
    ensures
        match r {
            Ok(items) => list_of(*payload) == Ok::<Seq<Json>, DecodeError>(items@),
            Err(e) => list_of(*payload) == Err::<Seq<Json>, DecodeError>(e),
        },
{
    match payload {
        Json::Object(members) => match member(members, "list") {
            Some(Json::Array(items)) => Ok(items),
            _ => Err(DecodeError::MissingListField),
        },
        _ => Err(DecodeError::MissingListField),
    }
}

/// Reads the orders out of the payload of an order query. The first item
/// that is no order gives the error.
pub fn orders_from(payload: &Json) -> (r: Result<Vec<Order>, DecodeError>)
    ensures
        match r {
            Ok(orders) => orders_error(*payload) is None && orders@ == order_list(
                list_of(*payload)->Ok_0,
            ),
            Err(e) => orders_error(*payload) == Some(e),
        },
        r matches Ok(orders) ==> forall|i: int|
            0 <= i < orders@.len() ==> (#[trigger] orders@[i]).well_formed(),
{
    let items = match list_from(payload) {
        Ok(items) => items,
        Err(e) => {
            return Err(e);
        },
    };
    let mut orders: Vec<Order> = Vec::new();
    let mut i: usize = 0;
    assert(items@.skip(0) =~= items@);
    while i < items.len()
        invariant
            i <= items.len(),
            list_of(*payload) == Ok::<Seq<Json>, DecodeError>(items@),
            orders_fault(items@) == orders_fault(items@.skip(i as int)),
            orders@.len() == i,
            forall|k: int| 0 <= k < i ==> (#[trigger] orders@[k]).well_formed(),
            forall|k: int| 0 <= k < i ==> order_of(items@[k]) == Ok::<Order, DecodeError>(
                #[trigger] orders@[k],
            ),
        decreases items.len() - i,
    {
        assert(items@.skip(i as int).drop_first() =~= items@.skip(i as int + 1));
        assert(items@.skip(i as int)[0] == items@[i as int]);
        match Order::decode(&items[i]) {
            Ok(order) => {
                orders.push(order);
            },
            Err(e) => {
                return Err(e);
            },
        }
        i += 1;
    }
    assert(orders@ =~= order_list(items@));
    Ok(orders)
}

/// Reads the account out of the payload of a balance query: the first item
/// of its list.
pub fn account_from(payload: &Json) -> (r: Result<AccountInfo, DecodeError>)
    ensures
        match r {
            Ok(account) => {
                let members = first_of_list(*payload)->Ok_0->Object_0@;
                &&& account_error(*payload) is None
                &&& account == account_info_with(members, account.coin)
                &&& account.coin@ == coin_list(coin_items(members, "coin")->Ok_0)
            },
            Err(e) => account_error(*payload) == Some(e),
        },
        r matches Ok(account) ==> account.well_formed(),
{
    let items = match list_from(payload) {
        Ok(items) => items,
        Err(e) => {
            return Err(e);
        },
    };
    if items.len() == 0 {
        return Err(DecodeError::EmptyList);
    }
    AccountInfo::decode(&items[0])
}

/// What the body of a response decodes to, given what a payload decodes to.
pub open spec fn response_of<T>(
    parsed: Option<Json>,
    record_of: spec_fn(Json) -> Result<T, DecodeError>,
) -> Result<T, DecodeError> {
    match response_payload(parsed) {
        Ok(payload) => record_of(payload),
        Err(e) => Err(e),
    }
}

/// A record that the payload of a response decodes into as a whole.
pub trait Payload: Sized {
    /// What a payload decodes to.
    spec fn of(payload: Json) -> Result<Self, DecodeError>;

    /// Reads the record out of a payload.
    fn from_payload(payload: &Json) -> (r: Result<Self, DecodeError>)
        ensures
            r == Self::of(*payload),
    ;
}

impl Payload for CreateOrderResponse {
    open spec fn of(payload: Json) -> Result<CreateOrderResponse, DecodeError> {
        create_order_response_of(payload)
    }

    fn from_payload(payload: &Json) -> (r: Result<CreateOrderResponse, DecodeError>) {
        CreateOrderResponse::decode(payload)
    }
}

impl Payload for Order {
    open spec fn of(payload: Json) -> Result<Order, DecodeError> {
        order_of(payload)
    }

    fn from_payload(payload: &Json) -> (r: Result<Order, DecodeError>) {
        Order::decode(payload)
    }
}

impl Payload for CoinInfo {
    open spec fn of(payload: Json) -> Result<CoinInfo, DecodeError> {
        coin_info_of(payload)
    }

    fn from_payload(payload: &Json) -> (r: Result<CoinInfo, DecodeError>) {
        CoinInfo::decode(payload)
    }
}

impl Payload for LeverageFilter {
    open spec fn of(payload: Json) -> Result<LeverageFilter, DecodeError> {
        leverage_filter_of(payload)
    }

    fn from_payload(payload: &Json) -> (r: Result<LeverageFilter, DecodeError>) {
        LeverageFilter::decode(payload)
    }
}

impl Payload for PriceFilter {
    open spec fn of(payload: Json) -> Result<PriceFilter, DecodeError> {
        price_filter_of(payload)
    }

    fn from_payload(payload: &Json) -> (r: Result<PriceFilter, DecodeError>) {
        PriceFilter::decode(payload)
    }
}

impl Payload for LotSizeFilter {
    open spec fn of(payload: Json) -> Result<LotSizeFilter, DecodeError> {
        lot_size_filter_of(payload)
    }

    fn from_payload(payload: &Json) -> (r: Result<LotSizeFilter, DecodeError>) {
        LotSizeFilter::decode(payload)
    }
}

impl Payload for ContractInfo {
    open spec fn of(payload: Json) -> Result<ContractInfo, DecodeError> {
        contract_info_of(payload)
    }

    fn from_payload(payload: &Json) -> (r: Result<ContractInfo, DecodeError>) {
        ContractInfo::decode(payload)
    }
}

impl Payload for PositionInfo {
    open spec fn of(payload: Json) -> Result<PositionInfo, DecodeError> {
        position_info_of(payload)
    }

    fn from_payload(payload: &Json) -> (r: Result<PositionInfo, DecodeError>) {
        PositionInfo::decode(payload)
    }
}

impl Payload for TickerData {
    open spec fn of(payload: Json) -> Result<TickerData, DecodeError> {
        ticker_data_of(payload)
    }

    fn from_payload(payload: &Json) -> (r: Result<TickerData, DecodeError>) {
        TickerData::decode(payload)
    }
}

/// Decodes a response body into the record that is asked for: the envelope
/// is parsed, its status is checked, and only then is the payload read.
pub fn decode<T: Payload>(body: &str) -> (r: Result<T, DecodeError>)
    ensures
        r == response_of(json_parse(body@), |payload: Json| T::of(payload)),
{
    match decode_payload(body) {
        Ok(payload) => T::from_payload(&payload),
        Err(e) => Err(e),
    }
}

/// Decodes a response that carries nothing but its status, such as the one
/// to a cancellation.
pub fn decode_status(body: &str) -> (r: Result<(), DecodeError>)
    ensures
        r == response_of(json_parse(body@), |payload: Json| Ok::<(), DecodeError>(())),
{
    match decode_payload(body) {
        Ok(_) => Ok(()),
        Err(e) => Err(e),
    }
}

/// Decodes the response to an order query.
pub fn decode_orders(body: &str) -> (r: Result<Vec<Order>, DecodeError>)
    ensures
        match response_payload(json_parse(body@)) {
            Ok(payload) => match r {
                Ok(orders) => orders_error(payload) is None && orders@ == order_list(
                    list_of(payload)->Ok_0,
                ),
                Err(e) => orders_error(payload) == Some(e),
            },
            Err(e) => r == Err::<Vec<Order>, DecodeError>(e),
        },
        r matches Ok(orders) ==> forall|i: int|
            0 <= i < orders@.len() ==> (#[trigger] orders@[i]).well_formed(),
{
    match decode_payload(body) {
        Ok(payload) => orders_from(&payload),
        Err(e) => Err(e),
    }
}

/// Decodes the response to a balance query.
pub fn decode_wallet_balance(body: &str) -> (r: Result<AccountInfo, DecodeError>)
    ensures
        match response_payload(json_parse(body@)) {
            Ok(payload) => match r {
                Ok(account) => {
                    let members = first_of_list(payload)->Ok_0->Object_0@;
                    &&& account_error(payload) is None
                    &&& account == account_info_with(members, account.coin)
                    &&& account.coin@ == coin_list(coin_items(members, "coin")->Ok_0)
                },
                Err(e) => account_error(payload) == Some(e),
            },
            Err(e) => r == Err::<AccountInfo, DecodeError>(e),
        },
        r matches Ok(account) ==> account.well_formed(),
{
    match decode_payload(body) {
        Ok(payload) => account_from(&payload),
        Err(e) => Err(e),
    }
}

/// A status other than zero is reported as the exchange's error, whatever
/// the payload holds: the payload is not looked at.
pub proof fn rejected_response_is_exchange_error(envelope: BybitResponse)
    requires
        envelope.ret_code != 0,
    ensures
        payload_of(envelope) == Err::<Json, DecodeError>(
            DecodeError::ExchangeError { code: envelope.ret_code, message: envelope.ret_msg },
        ),
{
}

} // verus!
