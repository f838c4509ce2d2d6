//! The client: credentials and configuration, and for every endpoint the
//! signed request that asks for it.

use vstd::prelude::*;
use vstd::string::*;
use crate::canonical::{
    canonical_text, canonicalize, spells_pairs, text_parameters_are_canonical, text_payload,
    write_body, body_text, RequestError, RequestKind,
};
use crate::json::Json;
use crate::request::{assemble, assembled, Request, RequestView};
use crate::numbers::decimal_text;
use crate::sign::{is_signature, message_to_sign, sign, signature_text, signing_message};
use crate::types::{AccountType, Category, OrderId, OrderType, TimeInForce, TradeDirection};
use crate::utils::get_timestamp;

verus! {

/// The exchange's main REST host.
pub const REST_API_URL: &'static str = "https://api.bybit.com";

/// The receive window, in milliseconds, that the protocol uses by default.
pub const RECV_WINDOW: &'static str = "5000";

/// Credentials and configuration. A client without credentials can be
/// made; it refuses to sign.
#[derive(Clone, Debug, PartialEq, Eq)]
pub struct Bybit {
    pub api_key: Option<String>,
    pub api_secret: Option<String>,
    pub base_url: String,
    pub recv_window: String,
}

/// Names and values as plain texts.
pub open spec fn pair_views(pairs: Seq<(&'static str, String)>) -> Seq<(Seq<char>, Seq<char>)> {
    Seq::new(pairs.len(), |i: int| (pairs[i].0@, pairs[i].1@))
}

/// The parameter that names an order.
pub open spec fn order_id_pair(order_id: OrderId) -> (Seq<char>, Seq<char>) {
    match order_id {
        OrderId::OrderID(id) => ("orderId"@, id@),
        OrderId::OrderLinkID(id) => ("orderLinkId"@, id@),
    }
}

/// The parameters of a cancellation.
pub open spec fn cancel_order_pairs(category: Category, symbol: Seq<char>, order_id: OrderId) -> Seq<
    (Seq<char>, Seq<char>),
> {
    seq![("category"@, category.wire_text()), ("symbol"@, symbol), order_id_pair(order_id)]
}

/// The parameters of a cancellation of all orders.
pub open spec fn cancel_all_orders_pairs(category: Category, symbol: Seq<char>) -> Seq<
    (Seq<char>, Seq<char>),
> {
    seq![("category"@, category.wire_text()), ("symbol"@, symbol)]
}

/// The parameters of a new order: the price and the time in force follow
/// the others where they are given.
pub open spec fn create_order_pairs(
    category: Category,
    symbol: Seq<char>,
    side: TradeDirection,
    order_type: OrderType,
    qty: Seq<char>,
    price: Option<Seq<char>>,
    time_in_force: Option<TimeInForce>,
) -> Seq<(Seq<char>, Seq<char>)> {
    let fixed = seq![
        ("category"@, category.wire_text()),
        ("symbol"@, symbol),
        ("side"@, side.wire_text()),
        ("qty"@, qty),
        ("orderType"@, order_type.wire_text()),
    ];
    let priced = match price {
        Some(p) => fixed.push(("price"@, p)),
        None => fixed,
    };
    match time_in_force {
        Some(t) => priced.push(("timeInForce"@, t.wire_text())),
        None => priced,
    }
}

/// The parameters of an order query.
pub open spec fn get_orders_pairs(
    category: Category,
    symbol: Seq<char>,
    order_id: Option<OrderId>,
) -> Seq<(Seq<char>, Seq<char>)> {
    let fixed = seq![("category"@, category.wire_text()), ("symbol"@, symbol)];
    match order_id {
        Some(id) => fixed.push(order_id_pair(id)),
        None => fixed,
    }
}

/// The parameters of a balance query.
pub open spec fn get_wallet_balance_pairs(account_type: AccountType, symbol: Option<Seq<char>>) -> Seq<
    (Seq<char>, Seq<char>),
> {
    let fixed = seq![("accountType"@, account_type.wire_text())];
    match symbol {
        Some(s) => fixed.push(("symbol"@, s)),
        None => fixed,
    }
}

/// The error of a request that is made now: the client's own where it has
/// one, else the clock's, which stands before the Unix epoch.
pub open spec fn error_now(own: Option<RequestError>) -> RequestError {
    match own {
        Some(e) => e,
        None => RequestError::ClockBeforeEpoch,
    }
}

/// An optional text as plain characters.
pub open spec fn text_view(text: Option<&str>) -> Option<Seq<char>> {
    match text {
        Some(t) => Some(t@),
        None => None,
    }
}

fn order_id_entry(order_id: OrderId) -> (r: (&'static str, String))
    ensures
        (r.0@, r.1@) == order_id_pair(order_id),
{
    match order_id {
        OrderId::OrderID(id) => ("orderId", id),
        OrderId::OrderLinkID(id) => ("orderLinkId", id),
    }
}

fn text_params(pairs: &Vec<(&'static str, String)>) -> (params: Vec<(String, Json)>)
    ensures
        spells_pairs(params@, pair_views(pairs@)),
{
    let mut params: Vec<(String, Json)> = Vec::new();
    let mut i: usize = 0;
    while i < pairs.len()
        invariant
            i <= pairs.len(),
            spells_pairs(params@, pair_views(pairs@).take(i as int)),
        decreases pairs.len() - i,
    {
        params.push((String::from_str(pairs[i].0), Json::Text(pairs[i].1.clone())));
        i += 1;
    }
    assert(pair_views(pairs@).take(pairs.len() as int) =~= pair_views(pairs@));
    params
}

fn cancel_order_entries(category: Category, symbol: &str, order_id: OrderId) -> (pairs: Vec<
    (&'static str, String),
>)
    ensures
        pair_views(pairs@) == cancel_order_pairs(category, symbol@, order_id),
{
    let mut pairs: Vec<(&'static str, String)> = Vec::new();
    pairs.push(("category", String::from_str(category.as_str())));
    pairs.push(("symbol", String::from_str(symbol)));
    pairs.push(order_id_entry(order_id));
    assert(pair_views(pairs@) =~= cancel_order_pairs(category, symbol@, order_id));
    pairs
}

fn cancel_all_orders_entries(category: Category, symbol: &str) -> (pairs: Vec<
    (&'static str, String),
>)
    ensures
        pair_views(pairs@) == cancel_all_orders_pairs(category, symbol@),
{
    let mut pairs: Vec<(&'static str, String)> = Vec::new();
    pairs.push(("category", String::from_str(category.as_str())));
    pairs.push(("symbol", String::from_str(symbol)));
    assert(pair_views(pairs@) =~= cancel_all_orders_pairs(category, symbol@));
    pairs
}

fn create_order_entries(
    category: Category,
    symbol: &str,
    side: TradeDirection,
    order_type: OrderType,
    qty: &str,
    price: Option<&str>,
    time_in_force: Option<TimeInForce>,
) -> (pairs: Vec<(&'static str, String)>)
    ensures
        pair_views(pairs@) == create_order_pairs(
            category,
            symbol@,
            side,
            order_type,
            qty@,
            text_view(price),
            time_in_force,
        ),
{
    let mut pairs: Vec<(&'static str, String)> = Vec::new();
    pairs.push(("category", String::from_str(category.as_str())));
    pairs.push(("symbol", String::from_str(symbol)));
    pairs.push(("side", String::from_str(side.as_str())));
    pairs.push(("qty", String::from_str(qty)));
    pairs.push(("orderType", String::from_str(order_type.as_str())));
    match price {
        Some(p) => {
            pairs.push(("price", String::from_str(p)));
        },
        None => {},
    }
    match time_in_force {
        Some(t) => {
            pairs.push(("timeInForce", String::from_str(t.as_str())));
        },
        None => {},
    }
    assert(pair_views(pairs@) =~= create_order_pairs(
        category,
        symbol@,
        side,
        order_type,
        qty@,
        text_view(price),
        time_in_force,
    ));
    pairs
}

fn get_orders_entries(category: Category, symbol: &str, order_id_op: Option<OrderId>) -> (pairs: Vec<
    (&'static str, String),
>)
    ensures
        pair_views(pairs@) == get_orders_pairs(category, symbol@, order_id_op),
{
    let mut pairs: Vec<(&'static str, String)> = Vec::new();
    pairs.push(("category", String::from_str(category.as_str())));
    pairs.push(("symbol", String::from_str(symbol)));
    match order_id_op {
        Some(order_id) => {
            pairs.push(order_id_entry(order_id));
        },
        None => {},
    }
    assert(pair_views(pairs@) =~= get_orders_pairs(category, symbol@, order_id_op));
    pairs
}

fn get_wallet_balance_entries(account_type: AccountType, symbol_op: Option<&str>) -> (pairs: Vec<
    (&'static str, String),
>)
    ensures
        pair_views(pairs@) == get_wallet_balance_pairs(account_type, text_view(symbol_op)),
{
    let mut pairs: Vec<(&'static str, String)> = Vec::new();
    pairs.push(("accountType", String::from_str(account_type.as_str())));
    match symbol_op {
        Some(symbol) => {
            pairs.push(("symbol", String::from_str(symbol)));
        },
        None => {},
    }
    assert(pair_views(pairs@) =~= get_wallet_balance_pairs(account_type, text_view(symbol_op)));
    pairs
}

impl Bybit {
    /// A client for the main host with the default receive window.
    pub fn new(api_key: Option<String>, api_secret: Option<String>) -> (r: Bybit)
        ensures
            r.api_key == api_key,
            r.api_secret == api_secret,
            r.base_url@ == REST_API_URL@,
            r.recv_window@ == RECV_WINDOW@,
    {
        Bybit {
            api_key,
            api_secret,
            base_url: String::from_str(REST_API_URL),
            recv_window: String::from_str(RECV_WINDOW),
        }
    }

    /// A client for another host or another receive window.
    pub fn with_config(
        api_key: Option<String>,
        api_secret: Option<String>,
        base_url: String,
        recv_window: String,
    ) -> (r: Bybit)
        ensures
            r == (Bybit { api_key, api_secret, base_url, recv_window }),
    {
        Bybit { api_key, api_secret, base_url, recv_window }
    }

    /// The signature of a payload at a timestamp, where the client has both
    /// credentials.
    pub open spec fn signature_of(self, timestamp: u128, payload: Seq<char>) -> Seq<char> {
        signature_text(
            self.api_secret->0@,
            signing_message(timestamp, self.api_key->0@, self.recv_window@, payload),
        )
    }

    /// The error that keeps the client from signing: a credential is absent.
    pub open spec fn credential_error(self) -> Option<RequestError> {
        if self.api_key is None || self.api_secret is None {
            Some(RequestError::MissingCredential)
        } else {
            None
        }
    }

    /// The error that keeps a request from being made. An absent API key
    /// comes first, then parameters that have no canonical payload, then an
    /// absent secret.
    pub open spec fn request_error(self, params: Seq<(String, Json)>, kind: RequestKind) -> Option<
        RequestError,
    > {
        if self.api_key is None {
            Some(RequestError::MissingCredential)
        } else if canonical_text(params, kind) is Err {
            Some(RequestError::MalformedParameters)
        } else if self.api_secret is None {
            Some(RequestError::MissingCredential)
        } else {
            None
        }
    }

    /// The signed request for a payload: the payload is signed as it is and
    /// sent as it is, with the one timestamp in the signature and the header.
    pub open spec fn signed_view(
        self,
        endpoint: Seq<char>,
        kind: RequestKind,
        payload: Seq<char>,
        timestamp: u128,
    ) -> RequestView {
        assembled(
            self.base_url@,
            endpoint,
            kind,
            self.api_key->0@,
            timestamp,
            self.recv_window@,
            self.signature_of(timestamp, payload),
            payload,
        )
    }

    /// Signs a message with the client's secret.
    pub fn sign_request(&self, request: String) -> (r: Result<String, RequestError>)
        ensures
            match self.api_secret {
                Some(secret) => r matches Ok(signature) && signature@ == signature_text(
                    secret@,
                    request@,
                ) && is_signature(signature@),
                None => r == Err::<String, RequestError>(RequestError::MissingCredential),
            },
    {
        match &self.api_secret {
            Some(secret) => Ok(sign(secret.as_str(), request.as_str())),
            None => Err(RequestError::MissingCredential),
        }
    }

    /// Signs a payload at a timestamp: the message is the timestamp, the
    /// API key, the receive window and the payload in a row.
    pub fn make_signature(&self, timestamp: u128, raw_request_body: &str) -> (r: Result<
        String,
        RequestError,
    >)
        ensures
            match r {
                Ok(signature) => self.credential_error() is None && signature@
                    == self.signature_of(timestamp, raw_request_body@) && is_signature(signature@),
                Err(e) => self.credential_error() == Some(e),
            },
    {
        let api_key = match &self.api_key {
            Some(key) => key,
            None => {
                return Err(RequestError::MissingCredential);
            },
        };
        let request = message_to_sign(
            timestamp,
            api_key.as_str(),
            self.recv_window.as_str(),
            raw_request_body,
        );
        self.sign_request(request)
    }

    /// Builds the write request for parameters that were signed elsewhere.
    /// The body is the canonical JSON of the parameters, the same text that
    /// the canonicalizer gives for them.
    pub fn post_request(
        &self,
        endpoint: &str,
        timestamp: u128,
        signature: &str,
        params: &Vec<(String, Json)>,
    ) -> (r: Result<Request, RequestError>)
        ensures
            match self.api_key {
                Some(key) => r matches Ok(request) && request@ == assembled(
                    self.base_url@,
                    endpoint@,
                    RequestKind::Write,
                    key@,
                    timestamp,
                    self.recv_window@,
                    signature@,
                    body_text(params@),
                ),
                None => r == Err::<Request, RequestError>(RequestError::MissingCredential),
            },
    {
        let api_key = match &self.api_key {
            Some(key) => key,
            None => {
                return Err(RequestError::MissingCredential);
            },
        };
        Ok(
            assemble(
                self.base_url.as_str(),
                endpoint,
                RequestKind::Write,
                api_key.as_str(),
                timestamp,
                self.recv_window.as_str(),
                signature,
                write_body(params),
            ),
        )
    }

    /// Checks what a request needs before anything is signed, and hands out
    /// the canonical payload.
    fn checked_payload(&self, params: &Vec<(String, Json)>, kind: RequestKind) -> (r: Result<
        String,
        RequestError,
    >)
        ensures
            match r {
                Ok(payload) => self.request_error(params@, kind) is None && payload@
                    == canonical_text(params@, kind)->Ok_0,
                Err(e) => self.request_error(params@, kind) == Some(e),
            },
    {
        if self.api_key.is_none() {
            return Err(RequestError::MissingCredential);
        }
        let payload = canonicalize(params, kind)?;
        if self.api_secret.is_none() {
            return Err(RequestError::MissingCredential);
        }
        Ok(payload)
    }

    /// Signs a canonical payload at a timestamp and builds the request
    /// around it.
    fn request_for(&self, endpoint: &str, kind: RequestKind, payload: String, timestamp: u128) -> (r:
        Result<Request, RequestError>)
        ensures
            match r {
                Ok(request) => self.credential_error() is None && request@ == self.signed_view(
                    endpoint@,
                    kind,
                    payload@,
                    timestamp,
                ),
                Err(e) => self.credential_error() == Some(e),
            },
    {
        let api_key = match &self.api_key {
            Some(key) => key,
            None => {
                return Err(RequestError::MissingCredential);
            },
        };
        let signature = self.make_signature(timestamp, payload.as_str())?;
        Ok(
            assemble(
                self.base_url.as_str(),
                endpoint,
                kind,
                api_key.as_str(),
                timestamp,
                self.recv_window.as_str(),
                signature.as_str(),
                payload,
            ),
        )
    }

    /// Canonicalizes parameters, signs the payload at a timestamp and
    /// builds the request around it.
    pub fn signed_request_at(
        &self,
        endpoint: &str,
        kind: RequestKind,
        params: &Vec<(String, Json)>,
        timestamp: u128,
    ) -> (r: Result<Request, RequestError>)
        ensures
            match r {
                Ok(request) => self.request_error(params@, kind) is None && request@
                    == self.signed_view(
                    endpoint@,
                    kind,
                    canonical_text(params@, kind)->Ok_0,
                    timestamp,
                ),
                Err(e) => self.request_error(params@, kind) == Some(e),
            },
    {
        let payload = self.checked_payload(params, kind)?;
        self.request_for(endpoint, kind, payload, timestamp)
    }

    /// Canonicalizes parameters, signs the payload at the time of the call
    /// and builds the request around it. The clock is read once, after the
    /// client's own checks: the request carries what it gave, and a clock
    /// that stands before the Unix epoch is an error.
    pub fn signed_request(&self, endpoint: &str, kind: RequestKind, params: &Vec<(String, Json)>) -> (r:
        Result<Request, RequestError>)
        ensures
            match r {
                Ok(request) => self.request_error(params@, kind) is None && request@
                    == self.signed_view(
                    endpoint@,
                    kind,
                    canonical_text(params@, kind)->Ok_0,
                    request.timestamp,
                ),
                Err(e) => e == error_now(self.request_error(params@, kind)),
            },
    {
        let payload = self.checked_payload(params, kind)?;
        match get_timestamp() {
            Some(timestamp) => self.request_for(endpoint, kind, payload, timestamp),
            None => Err(RequestError::ClockBeforeEpoch),
        }
    }

    /// Builds the signed read request for parameters at a timestamp.
    pub fn get_request_at(&self, endpoint: &str, params: &Vec<(String, Json)>, timestamp: u128) -> (r:
        Result<Request, RequestError>)
        ensures
            match r {
                Ok(request) => self.request_error(params@, RequestKind::Read) is None && request@
                    == self.signed_view(
                    endpoint@,
                    RequestKind::Read,
                    canonical_text(params@, RequestKind::Read)->Ok_0,
                    timestamp,
                ),
                Err(e) => self.request_error(params@, RequestKind::Read) == Some(e),
            },
    {
        self.signed_request_at(endpoint, RequestKind::Read, params, timestamp)
    }

    /// Builds the signed read request for parameters at the time of the
    /// call, which the request carries.
    pub fn get_request(&self, endpoint: &str, params: &Vec<(String, Json)>) -> (r: Result<
        Request,
        RequestError,
    >)
        ensures
            match r {
                Ok(request) => self.request_error(params@, RequestKind::Read) is None && request@
                    == self.signed_view(
                    endpoint@,
                    RequestKind::Read,
                    canonical_text(params@, RequestKind::Read)->Ok_0,
                    request.timestamp,
                ),
                Err(e) => e == error_now(self.request_error(params@, RequestKind::Read)),
            },
    {
        self.signed_request(endpoint, RequestKind::Read, params)
    }

    /// Whether a result is what asking an endpoint with string parameters
    /// at a timestamp comes to: the signed request where both credentials
    /// are there, else the missing credential.
    pub open spec fn answers(
        self,
        r: Result<Request, RequestError>,
        endpoint: Seq<char>,
        kind: RequestKind,
        pairs: Seq<(Seq<char>, Seq<char>)>,
        timestamp: u128,
    ) -> bool {
        match r {
            Ok(request) => self.credential_error() is None && request@ == self.signed_view(
                endpoint,
                kind,
                text_payload(pairs, kind),
                timestamp,
            ),
            Err(e) => self.credential_error() == Some(e),
        }
    }

    /// Whether a result is what asking an endpoint with string parameters
    /// now comes to. A missing credential is refused whatever the clock
    /// says. With both credentials the result is the signed request at the
    /// timestamp that it carries, or the clock's error.
    pub open spec fn answers_now(
        self,
        r: Result<Request, RequestError>,
        endpoint: Seq<char>,
        kind: RequestKind,
        pairs: Seq<(Seq<char>, Seq<char>)>,
    ) -> bool {
        match r {
            Ok(request) => self.credential_error() is None && request@ == self.signed_view(
                endpoint,
                kind,
                text_payload(pairs, kind),
                request.timestamp,
            ),
            Err(e) => e == error_now(self.credential_error()),
        }
    }

    /// Builds the signed request for parameters that are strings
    /// throughout, at a timestamp.
    pub fn text_request_at(
        &self,
        endpoint: &str,
        kind: RequestKind,
        pairs: Vec<(&'static str, String)>,
        timestamp: u128,
    ) -> (r: Result<Request, RequestError>)
        ensures
            self.answers(r, endpoint@, kind, pair_views(pairs@), timestamp),
    {
        let params = text_params(&pairs);
        proof {
            text_parameters_are_canonical(params@, pair_views(pairs@), kind);
        }
        self.signed_request_at(endpoint, kind, &params, timestamp)
    }

    /// Builds the signed request for parameters that are strings
    /// throughout, at the time of the call.
    pub fn text_request(&self, endpoint: &str, kind: RequestKind, pairs: Vec<(&'static str, String)>) -> (r:
        Result<Request, RequestError>)
        ensures
            self.answers_now(r, endpoint@, kind, pair_views(pairs@)),
    {
        let params = text_params(&pairs);
        proof {
            text_parameters_are_canonical(params@, pair_views(pairs@), kind);
        }
        self.signed_request(endpoint, kind, &params)
    }

    /// Builds the request that cancels one order, signed at a timestamp.
    pub fn cancel_order_at(
        &self,
        category: Category,
        symbol: &str,
        order_id: OrderId,
        timestamp: u128,
    ) -> (r: Result<Request, RequestError>)
        ensures
            self.answers(
                r,
                "/v5/order/cancel"@,
                RequestKind::Write,
                cancel_order_pairs(category, symbol@, order_id),
                timestamp,
            ),
    {
        let pairs = cancel_order_entries(category, symbol, order_id);
        self.text_request_at("/v5/order/cancel", RequestKind::Write, pairs, timestamp)
    }

    /// Builds the request that cancels one order, signed at the time of the
    /// call.
    pub fn cancel_order(&self, category: Category, symbol: &str, order_id: OrderId) -> (r: Result<
        Request,
        RequestError,
    >)
        ensures
            self.answers_now(
                r,
                "/v5/order/cancel"@,
                RequestKind::Write,
                cancel_order_pairs(category, symbol@, order_id),
            ),
    {
        let pairs = cancel_order_entries(category, symbol, order_id);
        self.text_request("/v5/order/cancel", RequestKind::Write, pairs)
    }

    /// Builds the request that cancels all orders of a symbol, signed at a
    /// timestamp.
    pub fn cancel_all_orders_at(&self, category: Category, symbol: &str, timestamp: u128) -> (r:
        Result<Request, RequestError>)
        ensures
            self.answers(
                r,
                "/v5/order/cancel-all"@,
                RequestKind::Write,
                cancel_all_orders_pairs(category, symbol@),
                timestamp,
            ),
    {
        let pairs = cancel_all_orders_entries(category, symbol);
        self.text_request_at("/v5/order/cancel-all", RequestKind::Write, pairs, timestamp)
    }

    /// Builds the request that cancels all orders of a symbol, signed at the
    /// time of the call.
    pub fn cancel_all_orders(&self, category: Category, symbol: &str) -> (r: Result<
        Request,
        RequestError,
    >)
        ensures
            self.answers_now(
                r,
                "/v5/order/cancel-all"@,
                RequestKind::Write,
                cancel_all_orders_pairs(category, symbol@),
            ),
    {
        let pairs = cancel_all_orders_entries(category, symbol);
        self.text_request("/v5/order/cancel-all", RequestKind::Write, pairs)
    }

    /// Builds the request that places an order, signed at a timestamp. The
    /// quantity and the price go in as the texts that are given. A limit
    /// order without a price is refused before anything else is looked at.
    pub fn create_order_at(
        &self,
        category: Category,
        symbol: &str,
        side: TradeDirection,
        order_type: OrderType,
        qty: &str,
        price: Option<&str>,
        time_in_force: Option<TimeInForce>,
        timestamp: u128,
    ) -> (r: Result<Request, RequestError>)
        ensures
            if order_type == OrderType::Limit && price is None {
                r == Err::<Request, RequestError>(RequestError::MalformedParameters)
            } else {
                self.answers(
                    r,
                    "/v5/order/create"@,
                    RequestKind::Write,
                    create_order_pairs(
                        category,
                        symbol@,
                        side,
                        order_type,
                        qty@,
                        text_view(price),
                        time_in_force,
                    ),
                    timestamp,
                )
            },
    {
        match (order_type, price) {
            (OrderType::Limit, None) => {
                return Err(RequestError::MalformedParameters);
            },
            _ => {},
        }
        let pairs = create_order_entries(category, symbol, side, order_type, qty, price, time_in_force);
        self.text_request_at("/v5/order/create", RequestKind::Write, pairs, timestamp)
    }

    /// Builds the request that places an order, signed at the time of the
    /// call.
    pub fn create_order(
        &self,
        category: Category,
        symbol: &str,
        side: TradeDirection,
        order_type: OrderType,
        qty: &str,
        price: Option<&str>,
        time_in_force: Option<TimeInForce>,
    ) -> (r: Result<Request, RequestError>)
        ensures
            if order_type == OrderType::Limit && price is None {
                r == Err::<Request, RequestError>(RequestError::MalformedParameters)
            } else {
                self.answers_now(
                    r,
                    "/v5/order/create"@,
                    RequestKind::Write,
                    create_order_pairs(
                        category,
                        symbol@,
                        side,
                        order_type,
                        qty@,
                        text_view(price),
                        time_in_force,
                    ),
                )
            },
    {
        match (order_type, price) {
            (OrderType::Limit, None) => {
                return Err(RequestError::MalformedParameters);
            },
            _ => {},
        }
        let pairs = create_order_entries(category, symbol, side, order_type, qty, price, time_in_force);
        self.text_request("/v5/order/create", RequestKind::Write, pairs)
    }

    /// Builds the request that lists the open orders of a symbol, or the one
    /// order that is named, signed at a timestamp.
    pub fn get_orders_at(
        &self,
        category: Category,
        symbol: &str,
        order_id_op: Option<OrderId>,
        timestamp: u128,
    ) -> (r: Result<Request, RequestError>)
        ensures
            self.answers(
                r,
                "/v5/order/realtime"@,
                RequestKind::Read,
                get_orders_pairs(category, symbol@, order_id_op),
                timestamp,
            ),
    {
        let pairs = get_orders_entries(category, symbol, order_id_op);
        self.text_request_at("/v5/order/realtime", RequestKind::Read, pairs, timestamp)
    }

    /// Builds the request that lists orders, signed at the time of the call.
    pub fn get_orders(&self, category: Category, symbol: &str, order_id_op: Option<OrderId>) -> (r:
        Result<Request, RequestError>)
        ensures
            self.answers_now(
                r,
                "/v5/order/realtime"@,
                RequestKind::Read,
                get_orders_pairs(category, symbol@, order_id_op),
            ),
    {
        let pairs = get_orders_entries(category, symbol, order_id_op);
        self.text_request("/v5/order/realtime", RequestKind::Read, pairs)
    }

    /// Builds the request that asks for an account's balance, signed at a
    /// timestamp.
    pub fn get_wallet_balance_at(
        &self,
        account_type: AccountType,
        symbol_op: Option<&str>,
        timestamp: u128,
    ) -> (r: Result<Request, RequestError>)
        ensures
            self.answers(
                r,
                "/v5/account/wallet-balance"@,
                RequestKind::Read,
                get_wallet_balance_pairs(account_type, text_view(symbol_op)),
                timestamp,
            ),
    {
        let pairs = get_wallet_balance_entries(account_type, symbol_op);
        self.text_request_at("/v5/account/wallet-balance", RequestKind::Read, pairs, timestamp)
    }

    /// Builds the request that asks for an account's balance, signed at the
    /// time of the call.
    pub fn get_wallet_balance(&self, account_type: AccountType, symbol_op: Option<&str>) -> (r:
        Result<Request, RequestError>)
        ensures
            self.answers_now(
                r,
                "/v5/account/wallet-balance"@,
                RequestKind::Read,
                get_wallet_balance_pairs(account_type, text_view(symbol_op)),
            ),
    {
        let pairs = get_wallet_balance_entries(account_type, symbol_op);
        self.text_request("/v5/account/wallet-balance", RequestKind::Read, pairs)
    }
}

/// What is sent is what was signed. For a write the body is the canonical
/// payload itself, for a read the URL ends in it, and the signature header
/// holds the signature of that same payload at the timestamp of the
/// timestamp header.
pub proof fn request_carries_signed_payload(
    client: Bybit,
    endpoint: Seq<char>,
    kind: RequestKind,
    params: Seq<(String, Json)>,
    timestamp: u128,
)
    requires
        client.request_error(params, kind) is None,
    ensures
        ({
            let payload = canonical_text(params, kind)->Ok_0;
            let request = client.signed_view(endpoint, kind, payload, timestamp);
            &&& kind == RequestKind::Write ==> request.body == Some(payload)
            &&& kind == RequestKind::Read ==> request.url == client.base_url@ + endpoint + "?"@
                + payload
            &&& request.headers[1] == ("X-BAPI-TIMESTAMP"@, decimal_text(timestamp as nat))
            &&& request.headers[3] == ("X-BAPI-SIGN"@, client.signature_of(timestamp, payload))
            &&& request.timestamp == timestamp
        }),
{
}

} // verus!
