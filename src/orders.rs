//! Order statuses as a closed set with stable text codes, and the revenue of
//! completed orders in minor units.
use vstd::prelude::*;
use crate::errors::ServiceError;

verus! {

#[derive(Clone, Copy, Debug, PartialEq, Eq, Structural)]
pub enum OrderStatus {
    Pending,
    Paid,
    Shipped,
    Completed,
    Cancelled,
}

impl OrderStatus {
    pub open spec fn code_spec(self) -> Seq<char> {
        match self {
            OrderStatus::Pending => "pending"@,
            OrderStatus::Paid => "paid"@,
            OrderStatus::Shipped => "shipped"@,
            OrderStatus::Completed => "completed"@,
            OrderStatus::Cancelled => "cancelled"@,
        }
    }

    /// The stored code of a status.
    pub fn code(&self) -> (r: &'static str)
        ensures
            r@ == self.code_spec(),
    {
        match self {
            OrderStatus::Pending => "pending",
            OrderStatus::Paid => "paid",
            OrderStatus::Shipped => "shipped",
            OrderStatus::Completed => "completed",
            OrderStatus::Cancelled => "cancelled",
        }
    }

    /// The status with this code; an unknown code is a validation error.
    pub fn from_code(code: &str) -> (r: Result<OrderStatus, ServiceError>)
        ensures
            r is Ok ==> r->Ok_0.code_spec() == code@,
            r is Err <==> forall|s: OrderStatus| s.code_spec() != code@,
            r is Err ==> r->Err_0 is Validation,
    {
        proof {
            reveal_strlit("pending");
            reveal_strlit("paid");
            reveal_strlit("shipped");
            reveal_strlit("completed");
            reveal_strlit("cancelled");
        }
        let c = code.to_string();
        let found: Option<OrderStatus> = if c.eq(&"pending".to_string()) {
            Some(OrderStatus::Pending)
        } else if c.eq(&"paid".to_string()) {
            Some(OrderStatus::Paid)
        } else if c.eq(&"shipped".to_string()) {
            Some(OrderStatus::Shipped)
        } else if c.eq(&"completed".to_string()) {
            Some(OrderStatus::Completed)
        } else if c.eq(&"cancelled".to_string()) {
            Some(OrderStatus::Cancelled)
        } else {
            None
        };
        match found {
            Some(s) => {
                assert(s.code_spec() == code@);
                Ok(s)
            },
            None => {
                assert forall|s: OrderStatus| s.code_spec() != code@ by {
                    match s {
                        OrderStatus::Pending => {},
                        OrderStatus::Paid => {},
                        OrderStatus::Shipped => {},
                        OrderStatus::Completed => {},
                        OrderStatus::Cancelled => {},
                    }
                }
                Err(ServiceError::Validation("unknown order status".to_string()))
            },
        }
    }
}

/// An order's status, where one is stored, and its total in minor units.
#[derive(Clone, Copy, Debug, PartialEq, Eq, Structural)]
pub struct OrderAmount {
    pub status: Option<OrderStatus>,
    pub amount_cents: i64,
}

/// The totals of the completed orders; an order without a status counts as
/// nothing.
pub open spec fn completed_sum(orders: Seq<OrderAmount>) -> int
    decreases orders.len(),
{
    if orders.len() == 0 {
        0
    } else {
        completed_sum(orders.drop_last()) + if orders.last().status == Some(OrderStatus::Completed) {
            orders.last().amount_cents as int
        } else {
            0
        }
    }
}

/// The revenue of the completed orders, in minor units.
pub fn completed_revenue(orders: &Vec<OrderAmount>) -> (r: i128)
    ensures
        r == completed_sum(orders@),
{
    let mut total: i128 = 0;
    let mut i: usize = 0;
    while i < orders.len()
        invariant
            0 <= i <= orders.len(),
            total == completed_sum(orders@.subrange(0, i as int)),
            -(i as int) * 0x8000_0000_0000_0000 <= total <= (i as int) * 0x8000_0000_0000_0000,
        decreases orders.len() - i,
    {
        assert(orders@.subrange(0, i + 1).drop_last() =~= orders@.subrange(0, i as int));
        let o = orders[i];
        if o.status == Some(OrderStatus::Completed) {
            total = total + o.amount_cents as i128;
        }
        i = i + 1;
    }
    assert(orders@.subrange(0, orders.len() as int) =~= orders@);
    total
}

} // verus!
