//! The closed sets of words that the exchange uses, with their wire spellings
//! in both directions.

use vstd::prelude::*;
use crate::json::same_text;

verus! {

/// The product family that an order belongs to.
#[derive(Clone, Copy, Debug, PartialEq, Eq)]
pub enum Category {
    Spot,
    Linear,
}

/// The side of an order.
#[derive(Clone, Copy, Debug, PartialEq, Eq)]
pub enum TradeDirection {
    Buy,
    Sell,
}

/// How an order is priced.
#[derive(Clone, Copy, Debug, PartialEq, Eq)]
pub enum OrderType {
    Market,
    Limit,
}

/// How long an order stays in force.
#[derive(Clone, Copy, Debug, PartialEq, Eq)]
pub enum TimeInForce {
    PostOnly,
    GTC,
    IOC,
    FOK,
}

/// The two ways to name an order: by the exchange's id or by the caller's.
#[derive(Clone, Debug, PartialEq, Eq)]
pub enum OrderId {
    OrderID(String),
    OrderLinkID(String),
}

/// The kind of account to ask about.
#[derive(Clone, Copy, Debug, PartialEq, Eq)]
pub enum AccountType {
    UNIFIED,
}

impl Category {
    /// The spelling on the wire.
    pub open spec fn wire_text(self) -> Seq<char> {
        match self {
            Category::Spot => "spot"@,
            Category::Linear => "linear"@,
        }
    }

    /// The category that a wire spelling stands for, if it stands for one.
    pub open spec fn of_wire(text: Seq<char>) -> Option<Category> {
        if text == "spot"@ {
            Some(Category::Spot)
        } else if text == "linear"@ {
            Some(Category::Linear)
        } else {
            None
        }
    }

    pub fn as_str(&self) -> (r: &'static str)
        ensures
            r@ == self.wire_text(),
    {
        match self {
            Category::Spot => "spot",
            Category::Linear => "linear",
        }
    }

    /// Reads a wire spelling; an unknown one gives `None`.
    pub fn from_wire(text: &str) -> (r: Option<Category>)
        ensures
            r == Category::of_wire(text@),
    {
        if same_text(text, "spot") {
            Some(Category::Spot)
        } else if same_text(text, "linear") {
            Some(Category::Linear)
        } else {
            None
        }
    }

    /// Reading back what `as_str` writes gives the same category.
    pub proof fn wire_round_trip(self)
        ensures
            Category::of_wire(self.wire_text()) == Some(self),
    {
        reveal_strlit("spot");
        reveal_strlit("linear");
        assert("spot"@.len() == 4 && "linear"@.len() == 6);
    }
}

impl TradeDirection {
    /// The spelling on the wire.
    pub open spec fn wire_text(self) -> Seq<char> {
        match self {
            TradeDirection::Buy => "Buy"@,
            TradeDirection::Sell => "Sell"@,
        }
    }

    /// The side that a wire spelling stands for, if it stands for one.
    pub open spec fn of_wire(text: Seq<char>) -> Option<TradeDirection> {
        if text == "Buy"@ {
            Some(TradeDirection::Buy)
        } else if text == "Sell"@ {
            Some(TradeDirection::Sell)
        } else {
            None
        }
    }

    pub fn as_str(&self) -> (r: &'static str)
        ensures
            r@ == self.wire_text(),
    {
        match self {
            TradeDirection::Buy => "Buy",
            TradeDirection::Sell => "Sell",
        }
    }

    /// Reads a wire spelling; an unknown one gives `None`.
    pub fn from_wire(text: &str) -> (r: Option<TradeDirection>)
        ensures
            r == TradeDirection::of_wire(text@),
    {
        if same_text(text, "Buy") {
            Some(TradeDirection::Buy)
        } else if same_text(text, "Sell") {
            Some(TradeDirection::Sell)
        } else {
            None
        }
    }

    /// Reading back what `as_str` writes gives the same side.
    pub proof fn wire_round_trip(self)
        ensures
            TradeDirection::of_wire(self.wire_text()) == Some(self),
    {
        reveal_strlit("Buy");
        reveal_strlit("Sell");
        assert("Buy"@.len() == 3 && "Sell"@.len() == 4);
    }
}

impl OrderType {
    /// The spelling on the wire.
    pub open spec fn wire_text(self) -> Seq<char> {
        match self {
            OrderType::Market => "Market"@,
            OrderType::Limit => "Limit"@,
        }
    }

    /// The order type that a wire spelling stands for, if it stands for one.
    pub open spec fn of_wire(text: Seq<char>) -> Option<OrderType> {
        if text == "Market"@ {
            Some(OrderType::Market)
        } else if text == "Limit"@ {
            Some(OrderType::Limit)
        } else {
            None
        }
    }

    pub fn as_str(&self) -> (r: &'static str)
        ensures
            r@ == self.wire_text(),
    {
        match self {
            OrderType::Market => "Market",
            OrderType::Limit => "Limit",
        }
    }

    /// Reads a wire spelling; an unknown one gives `None`.
    pub fn from_wire(text: &str) -> (r: Option<OrderType>)
        ensures
            r == OrderType::of_wire(text@),
    {
        if same_text(text, "Market") {
            Some(OrderType::Market)
        } else if same_text(text, "Limit") {
            Some(OrderType::Limit)
        } else {
            None
        }
    }

    /// Reading back what `as_str` writes gives the same order type.
    pub proof fn wire_round_trip(self)
        ensures
            OrderType::of_wire(self.wire_text()) == Some(self),
    {
        reveal_strlit("Market");
        reveal_strlit("Limit");
        assert("Market"@.len() == 6 && "Limit"@.len() == 5);
    }
}

impl TimeInForce {
    /// The spelling on the wire.
    pub open spec fn wire_text(self) -> Seq<char> {
        match self {
            TimeInForce::PostOnly => "PostOnly"@,
            TimeInForce::GTC => "GTC"@,
            TimeInForce::IOC => "IOC"@,
            TimeInForce::FOK => "FOK"@,
        }
    }

    /// The time in force that a wire spelling stands for, if it stands for
    /// one.
    pub open spec fn of_wire(text: Seq<char>) -> Option<TimeInForce> {
        if text == "PostOnly"@ {
            Some(TimeInForce::PostOnly)
        } else if text == "GTC"@ {
            Some(TimeInForce::GTC)
        } else if text == "IOC"@ {
            Some(TimeInForce::IOC)
        } else if text == "FOK"@ {
            Some(TimeInForce::FOK)
        } else {
            None
        }
    }

    pub fn as_str(&self) -> (r: &'static str)
        ensures
            r@ == self.wire_text(),
    {
        match self {
            TimeInForce::PostOnly => "PostOnly",
            TimeInForce::GTC => "GTC",
            TimeInForce::IOC => "IOC",
            TimeInForce::FOK => "FOK",
        }
    }

    /// Reads a wire spelling; an unknown one gives `None`.
    pub fn from_wire(text: &str) -> (r: Option<TimeInForce>)
        ensures
            r == TimeInForce::of_wire(text@),
    {
        if same_text(text, "PostOnly") {
            Some(TimeInForce::PostOnly)
        } else if same_text(text, "GTC") {
            Some(TimeInForce::GTC)
        } else if same_text(text, "IOC") {
            Some(TimeInForce::IOC)
        } else if same_text(text, "FOK") {
            Some(TimeInForce::FOK)
        } else {
            None
        }
    }

    /// Reading back what `as_str` writes gives the same time in force.
    pub proof fn wire_round_trip(self)
        ensures
            TimeInForce::of_wire(self.wire_text()) == Some(self),
    {
        reveal_strlit("PostOnly");
        reveal_strlit("GTC");
        reveal_strlit("IOC");
        reveal_strlit("FOK");
        assert("PostOnly"@.len() == 8 && "GTC"@.len() == 3);
        assert("GTC"@[0] == 'G' && "IOC"@[0] == 'I' && "FOK"@[0] == 'F');
    }
}

impl AccountType {
    /// The spelling on the wire.
    pub open spec fn wire_text(self) -> Seq<char> {
        match self {
            AccountType::UNIFIED => "UNIFIED"@,
        }
    }

    /// The account type that a wire spelling stands for, if it stands for one.
    pub open spec fn of_wire(text: Seq<char>) -> Option<AccountType> {
        if text == "UNIFIED"@ {
            Some(AccountType::UNIFIED)
        } else {
            None
        }
    }

    pub fn as_str(&self) -> (r: &'static str)
        ensures
            r@ == self.wire_text(),
    {
        match self {
            AccountType::UNIFIED => "UNIFIED",
        }
    }

    /// Reads a wire spelling; an unknown one gives `None`.
    pub fn from_wire(text: &str) -> (r: Option<AccountType>)
        ensures
            r == AccountType::of_wire(text@),
    {
        if same_text(text, "UNIFIED") {
            Some(AccountType::UNIFIED)
        } else {
            None
        }
    }

    /// Reading back what `as_str` writes gives the same account type.
    pub proof fn wire_round_trip(self)
        ensures
            AccountType::of_wire(self.wire_text()) == Some(self),
    {
    }
}

} // verus!
