//! The words that the exchange writes for the values of its enumerations.

use crate::model::{
    Interval, OrderExecType, OrderRejectReason, OrderSide, OrderStatus, OrderTimeInForce,
    OrderType, RateLimitType,
};
use crate::text::same_text;
use vstd::prelude::*;
use vstd::string::*;

verus! {

impl OrderSide {
    /// The word that the exchange writes for this side.
    pub open spec fn wire_name(self) -> Seq<char> {
        match self {
            OrderSide::Buy => "BUY"@,
            OrderSide::Sell => "SELL"@,
        }
    }

    /// The word that the exchange writes for this side.
    pub fn name(&self) -> (r: &'static str)
        ensures
            r@ == self.wire_name(),
    {
        match self {
            OrderSide::Buy => "BUY",
            OrderSide::Sell => "SELL",
        }
    }

    /// The side that the exchange writes as `name`.
    pub fn from_name(name: &str) -> (r: Option<OrderSide>)
        ensures
            match r {
                Some(found) => found.wire_name() == name@,
                None => forall|any: OrderSide| any.wire_name() != name@,
            },
            forall|any: OrderSide| any.wire_name() == name@ ==> r == Some(any),
    {
        let r = if same_text(name, "BUY") {
            Some(OrderSide::Buy)
        } else if same_text(name, "SELL") {
            Some(OrderSide::Sell)
        } else {
            None
        };
        assert forall|any: OrderSide| any.wire_name() == name@ implies r == Some(any) by {
            if let Some(found) = r {
                Self::lemma_names_differ(any, found);
            }
        }
        r
    }

    /// No two of them are written alike.
    pub proof fn lemma_names_differ(a: OrderSide, b: OrderSide)
        requires
            a.wire_name() == b.wire_name(),
        ensures
            a == b,
    {
        reveal_strlit("BUY");
        reveal_strlit("SELL");
        assert("BUY"@.len() == 3);
        assert("SELL"@.len() == 4);
    }
}

impl OrderType {
    /// The word that the exchange writes for this type of order.
    pub open spec fn wire_name(self) -> Seq<char> {
        match self {
            OrderType::Market => "MARKET"@,
            OrderType::Limit => "LIMIT"@,
            OrderType::StopLoss => "STOP_LOSS"@,
            OrderType::StopLossLimit => "STOP_LOSS_LIMIT"@,
            OrderType::TakeProfit => "TAKE_PROFIT"@,
            OrderType::TakeProfitLimit => "TAKE_PROFIT_LIMIT"@,
            OrderType::LimitMaker => "LIMIT_MAKER"@,
        }
    }

    /// The word that the exchange writes for this type of order.
    pub fn name(&self) -> (r: &'static str)
        ensures
            r@ == self.wire_name(),
    {
        match self {
            OrderType::Market => "MARKET",
            OrderType::Limit => "LIMIT",
            OrderType::StopLoss => "STOP_LOSS",
            OrderType::StopLossLimit => "STOP_LOSS_LIMIT",
            OrderType::TakeProfit => "TAKE_PROFIT",
            OrderType::TakeProfitLimit => "TAKE_PROFIT_LIMIT",
            OrderType::LimitMaker => "LIMIT_MAKER",
        }
    }

    /// The type of order that the exchange writes as `name`.
    pub fn from_name(name: &str) -> (r: Option<OrderType>)
        ensures
            match r {
                Some(found) => found.wire_name() == name@,
                None => forall|any: OrderType| any.wire_name() != name@,
            },
            forall|any: OrderType| any.wire_name() == name@ ==> r == Some(any),
    {
        let r = if same_text(name, "MARKET") {
            Some(OrderType::Market)
        } else if same_text(name, "LIMIT") {
            Some(OrderType::Limit)
        } else if same_text(name, "STOP_LOSS") {
            Some(OrderType::StopLoss)
        } else if same_text(name, "STOP_LOSS_LIMIT") {
            Some(OrderType::StopLossLimit)
        } else if same_text(name, "TAKE_PROFIT") {
            Some(OrderType::TakeProfit)
        } else if same_text(name, "TAKE_PROFIT_LIMIT") {
            Some(OrderType::TakeProfitLimit)
        } else if same_text(name, "LIMIT_MAKER") {
            Some(OrderType::LimitMaker)
        } else {
            None
        };
        assert forall|any: OrderType| any.wire_name() == name@ implies r == Some(any) by {
            if let Some(found) = r {
                Self::lemma_names_differ(any, found);
            }
        }
        r
    }

    /// No two of them are written alike.
    pub proof fn lemma_names_differ(a: OrderType, b: OrderType)
        requires
            a.wire_name() == b.wire_name(),
        ensures
            a == b,
    {
        reveal_strlit("MARKET");
        reveal_strlit("LIMIT");
        reveal_strlit("STOP_LOSS");
        reveal_strlit("STOP_LOSS_LIMIT");
        reveal_strlit("TAKE_PROFIT");
        reveal_strlit("TAKE_PROFIT_LIMIT");
        reveal_strlit("LIMIT_MAKER");
        assert("MARKET"@.len() == 6);
        assert("LIMIT"@.len() == 5);
        assert("STOP_LOSS"@.len() == 9);
        assert("STOP_LOSS_LIMIT"@.len() == 15);
        assert("TAKE_PROFIT"@.len() == 11);
        assert("TAKE_PROFIT"@[0] == 'T');
        assert("TAKE_PROFIT_LIMIT"@.len() == 17);
        assert("LIMIT_MAKER"@.len() == 11);
        assert("LIMIT_MAKER"@[0] == 'L');
    }
}

impl OrderTimeInForce {
    /// The word that the exchange writes for this rule.
    pub open spec fn wire_name(self) -> Seq<char> {
        match self {
            OrderTimeInForce::GTC => "GTC"@,
            OrderTimeInForce::IOC => "IOC"@,
            OrderTimeInForce::FOK => "FOK"@,
        }
    }

    /// The word that the exchange writes for this rule.
    pub fn name(&self) -> (r: &'static str)
        ensures
            r@ == self.wire_name(),
    {
        match self {
            OrderTimeInForce::GTC => "GTC",
            OrderTimeInForce::IOC => "IOC",
            OrderTimeInForce::FOK => "FOK",
        }
    }

    /// The rule that the exchange writes as `name`.
    pub fn from_name(name: &str) -> (r: Option<OrderTimeInForce>)
        ensures
            match r {
                Some(found) => found.wire_name() == name@,
                None => forall|any: OrderTimeInForce| any.wire_name() != name@,
            },
            forall|any: OrderTimeInForce| any.wire_name() == name@ ==> r == Some(any),
    {
        let r = if same_text(name, "GTC") {
            Some(OrderTimeInForce::GTC)
        } else if same_text(name, "IOC") {
            Some(OrderTimeInForce::IOC)
        } else if same_text(name, "FOK") {
            Some(OrderTimeInForce::FOK)
        } else {
            None
        };
        assert forall|any: OrderTimeInForce| any.wire_name() == name@ implies r == Some(any) by {
            if let Some(found) = r {
                Self::lemma_names_differ(any, found);
            }
        }
        r
    }

    /// No two of them are written alike.
    pub proof fn lemma_names_differ(a: OrderTimeInForce, b: OrderTimeInForce)
        requires
            a.wire_name() == b.wire_name(),
        ensures
            a == b,
    {
        reveal_strlit("GTC");
        reveal_strlit("IOC");
        reveal_strlit("FOK");
        assert("GTC"@.len() == 3);
        assert("GTC"@[0] == 'G');
        assert("IOC"@.len() == 3);
        assert("IOC"@[0] == 'I');
        assert("FOK"@.len() == 3);
        assert("FOK"@[0] == 'F');
    }
}

impl OrderExecType {
    /// The word that the exchange writes for this kind of execution.
    pub open spec fn wire_name(self) -> Seq<char> {
        match self {
            OrderExecType::New => "NEW"@,
            OrderExecType::Canceled => "CANCELED"@,
            OrderExecType::Replaced => "REPLACED"@,
            OrderExecType::Rejected => "REJECTED"@,
            OrderExecType::Trade => "TRADE"@,
            OrderExecType::Expired => "EXPIRED"@,
        }
    }

    /// The word that the exchange writes for this kind of execution.
    pub fn name(&self) -> (r: &'static str)
        ensures
            r@ == self.wire_name(),
    {
        match self {
            OrderExecType::New => "NEW",
            OrderExecType::Canceled => "CANCELED",
            OrderExecType::Replaced => "REPLACED",
            OrderExecType::Rejected => "REJECTED",
            OrderExecType::Trade => "TRADE",
            OrderExecType::Expired => "EXPIRED",
        }
    }

    /// The kind of execution that the exchange writes as `name`.
    pub fn from_name(name: &str) -> (r: Option<OrderExecType>)
        ensures
            match r {
                Some(found) => found.wire_name() == name@,
                None => forall|any: OrderExecType| any.wire_name() != name@,
            },
            forall|any: OrderExecType| any.wire_name() == name@ ==> r == Some(any),
    {
        let r = if same_text(name, "NEW") {
            Some(OrderExecType::New)
        } else if same_text(name, "CANCELED") {
            Some(OrderExecType::Canceled)
        } else if same_text(name, "REPLACED") {
            Some(OrderExecType::Replaced)
        } else if same_text(name, "REJECTED") {
            Some(OrderExecType::Rejected)
        } else if same_text(name, "TRADE") {
            Some(OrderExecType::Trade)
        } else if same_text(name, "EXPIRED") {
            Some(OrderExecType::Expired)
        } else {
            None
        };
        assert forall|any: OrderExecType| any.wire_name() == name@ implies r == Some(any) by {
            if let Some(found) = r {
                Self::lemma_names_differ(any, found);
            }
        }
        r
    }

    /// No two of them are written alike.
    pub proof fn lemma_names_differ(a: OrderExecType, b: OrderExecType)
        requires
            a.wire_name() == b.wire_name(),
        ensures
            a == b,
    {
        reveal_strlit("NEW");
        reveal_strlit("CANCELED");
        reveal_strlit("REPLACED");
        reveal_strlit("REJECTED");
        reveal_strlit("TRADE");
        reveal_strlit("EXPIRED");
        assert("NEW"@.len() == 3);
        assert("CANCELED"@.len() == 8);
        assert("CANCELED"@[0] == 'C');
        assert("REPLACED"@.len() == 8);
        assert("REPLACED"@[0] == 'R');
        assert("REPLACED"@[2] == 'P');
        assert("REJECTED"@.len() == 8);
        assert("REJECTED"@[0] == 'R');
        assert("REJECTED"@[2] == 'J');
        assert("TRADE"@.len() == 5);
        assert("EXPIRED"@.len() == 7);
    }
}

impl OrderStatus {
    /// The word that the exchange writes for this status.
    pub open spec fn wire_name(self) -> Seq<char> {
        match self {
            OrderStatus::New => "NEW"@,
            OrderStatus::PartiallyFilled => "PARTIALLY_FILLED"@,
            OrderStatus::Filled => "FILLED"@,
            OrderStatus::Canceled => "CANCELED"@,
            OrderStatus::PendingCancel => "PENDING_CANCEL"@,
            OrderStatus::Rejected => "REJECTED"@,
            OrderStatus::Expired => "EXPIRED"@,
        }
    }

    /// The word that the exchange writes for this status.
    pub fn name(&self) -> (r: &'static str)
        ensures
            r@ == self.wire_name(),
    {
        match self {
            OrderStatus::New => "NEW",
            OrderStatus::PartiallyFilled => "PARTIALLY_FILLED",
            OrderStatus::Filled => "FILLED",
            OrderStatus::Canceled => "CANCELED",
            OrderStatus::PendingCancel => "PENDING_CANCEL",
            OrderStatus::Rejected => "REJECTED",
            OrderStatus::Expired => "EXPIRED",
        }
    }

    /// The status that the exchange writes as `name`.
    pub fn from_name(name: &str) -> (r: Option<OrderStatus>)
        ensures
            match r {
                Some(found) => found.wire_name() == name@,
                None => forall|any: OrderStatus| any.wire_name() != name@,
            },
            forall|any: OrderStatus| any.wire_name() == name@ ==> r == Some(any),
    {
        let r = if same_text(name, "NEW") {
            Some(OrderStatus::New)
        } else if same_text(name, "PARTIALLY_FILLED") {
            Some(OrderStatus::PartiallyFilled)
        } else if same_text(name, "FILLED") {
            Some(OrderStatus::Filled)
        } else if same_text(name, "CANCELED") {
            Some(OrderStatus::Canceled)
        } else if same_text(name, "PENDING_CANCEL") {
            Some(OrderStatus::PendingCancel)
        } else if same_text(name, "REJECTED") {
            Some(OrderStatus::Rejected)
        } else if same_text(name, "EXPIRED") {
            Some(OrderStatus::Expired)
        } else {
            None
        };
        assert forall|any: OrderStatus| any.wire_name() == name@ implies r == Some(any) by {
            if let Some(found) = r {
                Self::lemma_names_differ(any, found);
            }
        }
        r
    }

    /// No two of them are written alike.
    pub proof fn lemma_names_differ(a: OrderStatus, b: OrderStatus)
        requires
            a.wire_name() == b.wire_name(),
        ensures
            a == b,
    {
        reveal_strlit("NEW");
        reveal_strlit("PARTIALLY_FILLED");
        reveal_strlit("FILLED");
        reveal_strlit("CANCELED");
        reveal_strlit("PENDING_CANCEL");
        reveal_strlit("REJECTED");
        reveal_strlit("EXPIRED");
        assert("NEW"@.len() == 3);
        assert("PARTIALLY_FILLED"@.len() == 16);
        assert("FILLED"@.len() == 6);
        assert("CANCELED"@.len() == 8);
        assert("CANCELED"@[0] == 'C');
        assert("PENDING_CANCEL"@.len() == 14);
        assert("REJECTED"@.len() == 8);
        assert("REJECTED"@[0] == 'R');
        assert("EXPIRED"@.len() == 7);
    }
}

impl OrderRejectReason {
    /// The word that the exchange writes for this reason.
    pub open spec fn wire_name(self) -> Seq<char> {
        match self {
            OrderRejectReason::NoReason => "NONE"@,
        }
    }

    /// The word that the exchange writes for this reason.
    pub fn name(&self) -> (r: &'static str)
        ensures
            r@ == self.wire_name(),
    {
        match self {
            OrderRejectReason::NoReason => "NONE",
        }
    }

    /// The reason that the exchange writes as `name`.
    pub fn from_name(name: &str) -> (r: Option<OrderRejectReason>)
        ensures
            match r {
                Some(found) => found.wire_name() == name@,
                None => forall|any: OrderRejectReason| any.wire_name() != name@,
            },
            forall|any: OrderRejectReason| any.wire_name() == name@ ==> r == Some(any),
    {
        let r = if same_text(name, "NONE") {
            Some(OrderRejectReason::NoReason)
        } else {
            None
        };
        r
    }
}

impl RateLimitType {
    /// The word that the exchange writes for this kind of limit.
    pub open spec fn wire_name(self) -> Seq<char> {
        match self {
            RateLimitType::Orders => "ORDERS"@,
            RateLimitType::RequestWeight => "REQUEST_WEIGHT"@,
            RateLimitType::RawRequests => "RAW_REQUESTS"@,
        }
    }

    /// The word that the exchange writes for this kind of limit.
    pub fn name(&self) -> (r: &'static str)
        ensures
            r@ == self.wire_name(),
    {
        match self {
            RateLimitType::Orders => "ORDERS",
            RateLimitType::RequestWeight => "REQUEST_WEIGHT",
            RateLimitType::RawRequests => "RAW_REQUESTS",
        }
    }

    /// The kind of limit that the exchange writes as `name`.
    pub fn from_name(name: &str) -> (r: Option<RateLimitType>)
        ensures
            match r {
                Some(found) => found.wire_name() == name@,
                None => forall|any: RateLimitType| any.wire_name() != name@,
            },
            forall|any: RateLimitType| any.wire_name() == name@ ==> r == Some(any),
    {
        let r = if same_text(name, "ORDERS") {
            Some(RateLimitType::Orders)
        } else if same_text(name, "REQUEST_WEIGHT") {
            Some(RateLimitType::RequestWeight)
        } else if same_text(name, "RAW_REQUESTS") {
            Some(RateLimitType::RawRequests)
        } else {
            None
        };
        assert forall|any: RateLimitType| any.wire_name() == name@ implies r == Some(any) by {
            if let Some(found) = r {
                Self::lemma_names_differ(any, found);
            }
        }
        r
    }

    /// No two of them are written alike.
    pub proof fn lemma_names_differ(a: RateLimitType, b: RateLimitType)
        requires
            a.wire_name() == b.wire_name(),
        ensures
            a == b,
    {
        reveal_strlit("ORDERS");
        reveal_strlit("REQUEST_WEIGHT");
        reveal_strlit("RAW_REQUESTS");
        assert("ORDERS"@.len() == 6);
        assert("REQUEST_WEIGHT"@.len() == 14);
        assert("RAW_REQUESTS"@.len() == 12);
    }
}

impl Interval {
    /// The word that the exchange writes for this interval.
    pub open spec fn wire_name(self) -> Seq<char> {
        match self {
            Interval::Second => "SECOND"@,
            Interval::Minute => "MINUTE"@,
            Interval::Day => "DAY"@,
        }
    }

    /// The word that the exchange writes for this interval.
    pub fn name(&self) -> (r: &'static str)
        ensures
            r@ == self.wire_name(),
    {
        match self {
            Interval::Second => "SECOND",
            Interval::Minute => "MINUTE",
            Interval::Day => "DAY",
        }
    }

    /// The interval that the exchange writes as `name`.
    pub fn from_name(name: &str) -> (r: Option<Interval>)
        ensures
            match r {
                Some(found) => found.wire_name() == name@,
                None => forall|any: Interval| any.wire_name() != name@,
            },
            forall|any: Interval| any.wire_name() == name@ ==> r == Some(any),
    {
        let r = if same_text(name, "SECOND") {
            Some(Interval::Second)
        } else if same_text(name, "MINUTE") {
            Some(Interval::Minute)
        } else if same_text(name, "DAY") {
            Some(Interval::Day)
        } else {
            None
        };
        assert forall|any: Interval| any.wire_name() == name@ implies r == Some(any) by {
            if let Some(found) = r {
                Self::lemma_names_differ(any, found);
            }
        }
        r
    }

    /// No two of them are written alike.
    pub proof fn lemma_names_differ(a: Interval, b: Interval)
        requires
            a.wire_name() == b.wire_name(),
        ensures
            a == b,
    {
        reveal_strlit("SECOND");
        reveal_strlit("MINUTE");
        reveal_strlit("DAY");
        assert("SECOND"@.len() == 6);
        assert("SECOND"@[0] == 'S');
        assert("MINUTE"@.len() == 6);
        assert("MINUTE"@[0] == 'M');
        assert("DAY"@.len() == 3);
    }
}


} // verus!
