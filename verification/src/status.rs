//! The status of an order and the transitions between statuses.
//!
//! An order starts as `PaymentPending`. A confirmed payment makes it `Paid`, a
//! declined one `PaymentFailed`. A paid order is either `Completed` by its
//! restaurant or `Cancelled`. Nothing leaves `Completed`, `Cancelled` or
//! `PaymentFailed`.

use crate::text::str_eq;
use vstd::prelude::*;

verus! {

/// Where an order stands in its life.
#[derive(Clone, Copy, Debug, PartialEq, Eq, Structural, Hash)]
pub enum OrderStatus {
    PaymentPending,
    Paid,
    Completed,
    PaymentFailed,
    Cancelled,
}

/// What the stored label of a status reads, if it is the label of one.
pub open spec fn labelled(label: Seq<char>) -> Option<OrderStatus> {
    if label == "payment_pending"@ {
        Some(OrderStatus::PaymentPending)
    } else if label == "paid"@ {
        Some(OrderStatus::Paid)
    } else if label == "completed"@ {
        Some(OrderStatus::Completed)
    } else if label == "payment_failed"@ {
        Some(OrderStatus::PaymentFailed)
    } else if label == "cancelled"@ {
        Some(OrderStatus::Cancelled)
    } else {
        None
    }
}

impl OrderStatus {
    /// A status that no transition leaves.
    pub open spec fn terminal(self) -> bool {
        self == OrderStatus::Completed || self == OrderStatus::Cancelled || self
            == OrderStatus::PaymentFailed
    }

    /// The legal transitions: `self` may be followed directly by `next`.
    pub open spec fn allows(self, next: OrderStatus) -> bool {
        ||| self == OrderStatus::PaymentPending && next == OrderStatus::Paid
        ||| self == OrderStatus::PaymentPending && next == OrderStatus::PaymentFailed
        ||| self == OrderStatus::Paid && next == OrderStatus::Completed
        ||| self == OrderStatus::Paid && next == OrderStatus::Cancelled
    }

    /// Whether an order with this status can come to have status `later` by
    /// one or more legal transitions.
    pub open spec fn leads_to(self, later: OrderStatus) -> bool {
        ||| self == OrderStatus::PaymentPending && later != OrderStatus::PaymentPending
        ||| self == OrderStatus::Paid && (later == OrderStatus::Completed || later
            == OrderStatus::Cancelled)
    }

    /// How far along its life an order with this status is.
    pub open spec fn stage(self) -> nat {
        match self {
            OrderStatus::PaymentPending => 0,
            OrderStatus::Paid => 1,
            OrderStatus::Completed => 2,
            OrderStatus::PaymentFailed => 2,
            OrderStatus::Cancelled => 2,
        }
    }

    /// The label under which the status is stored and sent.
    pub open spec fn label(self) -> Seq<char> {
        match self {
            OrderStatus::PaymentPending => "payment_pending"@,
            OrderStatus::Paid => "paid"@,
            OrderStatus::Completed => "completed"@,
            OrderStatus::PaymentFailed => "payment_failed"@,
            OrderStatus::Cancelled => "cancelled"@,
        }
    }

    /// Whether the status is terminal.
    pub fn is_terminal(&self) -> (terminal: bool)
        ensures
            terminal == self.terminal(),
    {
        match self {
            OrderStatus::PaymentPending => false,
            OrderStatus::Paid => false,
            OrderStatus::Completed => true,
            OrderStatus::PaymentFailed => true,
            OrderStatus::Cancelled => true,
        }
    }

    /// Whether an order with this status may move directly to `next`.
    pub fn can_become(&self, next: OrderStatus) -> (legal: bool)
        ensures
            legal == self.allows(next),
    {
        match self {
            OrderStatus::PaymentPending => match next {
                OrderStatus::Paid => true,
                OrderStatus::PaymentFailed => true,
                _ => false,
            },
            OrderStatus::Paid => match next {
                OrderStatus::Completed => true,
                OrderStatus::Cancelled => true,
                _ => false,
            },
            _ => false,
        }
    }

    /// The label of the status.
    pub fn as_str(&self) -> (label: &'static str)
        ensures
            label@ == self.label(),
    {
        match self {
            OrderStatus::PaymentPending => "payment_pending",
            OrderStatus::Paid => "paid",
            OrderStatus::Completed => "completed",
            OrderStatus::PaymentFailed => "payment_failed",
            OrderStatus::Cancelled => "cancelled",
        }
    }

    /// Reads a stored label back. Any text that is not one of the five labels
    /// gives `None`.
    pub fn from_label(label: &str) -> (status: Option<OrderStatus>)
        ensures
            status == labelled(label@),
    {
        if str_eq(label, "payment_pending") {
            Some(OrderStatus::PaymentPending)
        } else if str_eq(label, "paid") {
            Some(OrderStatus::Paid)
        } else if str_eq(label, "completed") {
            Some(OrderStatus::Completed)
        } else if str_eq(label, "payment_failed") {
            Some(OrderStatus::PaymentFailed)
        } else if str_eq(label, "cancelled") {
            Some(OrderStatus::Cancelled)
        } else {
            None
        }
    }
}

/// A terminal status allows no transition at all.
pub proof fn law_terminal_is_final(status: OrderStatus, next: OrderStatus)
    requires
        status.terminal(),
    ensures
        !status.allows(next),
{
}

/// Every legal transition moves an order forward, so no sequence of legal
/// transitions ever returns to a status it has left.
pub proof fn law_transitions_advance(status: OrderStatus, next: OrderStatus)
    requires
        status.allows(next),
    ensures
        status.stage() < next.stage(),
        status != next,
        !next.allows(status),
{
}

/// `leads_to` is what chains of legal transitions reach: it holds of every
/// legal transition, it is closed under following another legal transition,
/// and every pair in it is joined by a chain of at most two legal transitions.
pub proof fn law_leads_to_is_reachability(a: OrderStatus, b: OrderStatus, c: OrderStatus)
    ensures
        a.allows(b) ==> a.leads_to(b),
        a.leads_to(b) && b.allows(c) ==> a.leads_to(c),
        a.leads_to(b) && b.leads_to(c) ==> a.leads_to(c),
        a.leads_to(b) ==> a.allows(b) || (a.allows(OrderStatus::Paid)
            && OrderStatus::Paid.allows(b)),
{
}

/// No status is reached again once it has been left, and nothing is reached
/// from a terminal status.
pub proof fn law_no_way_back(a: OrderStatus, b: OrderStatus)
    ensures
        a.leads_to(b) ==> a.stage() < b.stage() && !b.leads_to(a) && a != b,
        a.terminal() ==> !a.leads_to(b),
{
}

/// The five labels are distinct: reading a status's label gives that status.
pub proof fn law_label_round_trip(status: OrderStatus)
    ensures
        labelled(status.label()) == Some(status),
{
    reveal_strlit("payment_pending");
    reveal_strlit("paid");
    reveal_strlit("completed");
    reveal_strlit("payment_failed");
    reveal_strlit("cancelled");
    assert("payment_pending"@.len() == 15);
    assert("paid"@.len() == 4);
    assert("completed"@.len() == 9);
    assert("payment_failed"@.len() == 14);
    assert("cancelled"@[1] == 'a');
    assert("completed"@[1] == 'o');
}

} // verus!
