//! Open orders as the exchange reports them.

use vstd::prelude::*;
use std::collections::HashMap;

verus! {

/// The open orders of an account, by order id.
#[derive(Debug)]
pub struct OpenOrders {
    pub open: HashMap<String, Order>,
}

/// One order.
#[derive(Debug)]
pub struct Order {
    pub refid: String,
    pub userref: String,
    pub status: String,
    pub opentm: i64,
    pub start_tm: i64,
    pub expire_tm: i64,
    pub descr: OrderInfo,
    pub vol: String,
    pub vol_exec: String,
    pub cost: String,
    pub fee: String,
    pub price: String,
    pub stopprice: String,
    pub limitprice: String,
    pub trigger: String,
    pub misc: String,
    pub oflags: String,
    pub trades: Vec<String>,
}

/// The description of an order.
#[derive(Debug)]
pub struct OrderInfo {
    pub pair: String,
    /// Whether the order buys or sells; `type` in the exchange's documents.
    pub type_: String,
    pub ordertype: String,
    pub price: String,
    pub price2: String,
    pub leverage: String,
    pub order: String,
    pub close: String,
}

} // verus!
