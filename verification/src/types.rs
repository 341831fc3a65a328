use vstd::prelude::*;

verus! {

/// Kind of transaction an order belongs to.
#[derive(Debug, Clone, Copy, PartialEq, Eq, Structural)]
pub enum TXType {
    /// A trader order.
    ORDERTX,
    /// A lend order.
    LENDTX,
}

/// How an order is placed.
#[derive(Debug, Clone, Copy, PartialEq, Eq, Structural)]
pub enum OrderType {
    LIMIT,
    MARKET,
    DARK,
    LEND,
}

/// Side of a trader position.
#[derive(Debug, Clone, Copy, PartialEq, Eq, Structural)]
pub enum PositionType {
    LONG,
    SHORT,
}

/// Life-cycle state of an order.
#[derive(Debug, Clone, Copy, PartialEq, Eq, Structural)]
pub enum OrderStatus {
    SETTLED,
    LENDED,
    LIQUIDATE,
    CANCELLED,
    /// A new order that has not been filled yet.
    PENDING,
    /// Executed on a price tick.
    FILLED,
}

} // verus!
