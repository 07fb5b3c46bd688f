//! An order, its line items and the changes that its life allows.
//!
//! Line items are copies of catalog data taken when the order is created. The
//! total is the sum of price times quantity over those copies, and no later
//! change touches either.

use crate::status::OrderStatus;
use vstd::prelude::*;

verus! {

/// An opaque identifier of an order, a user, a restaurant or a catalog item.
pub type Id = u128;

/// The seconds that a user has, from the moment the payment was confirmed, to
/// cancel the order.
pub const USER_CANCEL_WINDOW_SECS: i64 = 60;

/// One line of an order: a copy of the catalog item's name and price, and how
/// many were ordered.
#[derive(Debug)]
pub struct Item {
    pub name: String,
    pub price: i32,
    pub quantity: i32,
}

/// The mathematical value of a line item.
pub struct ItemModel {
    pub name: Seq<char>,
    pub price: int,
    pub quantity: int,
}

impl View for Item {
    type V = ItemModel;

    open spec fn view(&self) -> ItemModel {
        ItemModel { name: self.name@, price: self.price as int, quantity: self.quantity as int }
    }
}

/// The values of a list of line items, in order.
pub open spec fn item_models(items: Seq<Item>) -> Seq<ItemModel> {
    Seq::new(items.len(), |i: int| items[i]@)
}

/// The sum of price times quantity over the lines.
pub open spec fn items_total(items: Seq<ItemModel>) -> int
    decreases items.len(),
{
    if items.len() == 0 {
        0
    } else {
        items_total(items.drop_last()) + items.last().price * items.last().quantity
    }
}

/// An order as it is stored.
#[derive(Debug)]
pub struct Order {
    pub id: Id,
    pub restaurant_id: Id,
    pub user_id: Id,
    pub items: Vec<Item>,
    /// In minor currency units.
    pub total: i32,
    pub status: OrderStatus,
    /// Seconds since the epoch, as are the two times below.
    pub created_at: i64,
    /// When the payment was confirmed.
    pub order_placed_time: Option<i64>,
    pub order_completed_time: Option<i64>,
    /// Seconds between the confirmed payment and the completion.
    pub time_taken: Option<i32>,
    /// Where the user pays, once the provider has opened a session.
    pub payment_url: Option<String>,
}

/// The mathematical value of an order.
pub struct OrderModel {
    pub id: Id,
    pub restaurant_id: Id,
    pub user_id: Id,
    pub items: Seq<ItemModel>,
    pub total: int,
    pub status: OrderStatus,
    pub created_at: int,
    pub placed_at: Option<int>,
    pub completed_at: Option<int>,
    pub time_taken: Option<int>,
    pub payment_url: Option<Seq<char>>,
}

impl View for Order {
    type V = OrderModel;

    open spec fn view(&self) -> OrderModel {
        OrderModel {
            id: self.id,
            restaurant_id: self.restaurant_id,
            user_id: self.user_id,
            items: item_models(self.items@),
            total: self.total as int,
            status: self.status,
            created_at: self.created_at as int,
            placed_at: match self.order_placed_time {
                Some(t) => Some(t as int),
                None => None,
            },
            completed_at: match self.order_completed_time {
                Some(t) => Some(t as int),
                None => None,
            },
            time_taken: match self.time_taken {
                Some(t) => Some(t as int),
                None => None,
            },
            payment_url: match self.payment_url {
                Some(url) => Some(url@),
                None => None,
            },
        }
    }
}

impl OrderModel {
    /// Price integrity: every line has a positive quantity and the total is the
    /// sum over the lines.
    pub open spec fn priced(self) -> bool {
        &&& self.total == items_total(self.items)
        &&& forall|i: int| 0 <= i < self.items.len() ==> (#[trigger] self.items[i]).quantity > 0
    }

    /// The times agree with the status: a payment time exactly from `Paid` on,
    /// a completion time and a duration exactly for `Completed`.
    pub open spec fn timed(self) -> bool {
        match self.status {
            OrderStatus::PaymentPending | OrderStatus::PaymentFailed => {
                self.placed_at is None && self.completed_at is None && self.time_taken is None
            },
            OrderStatus::Paid | OrderStatus::Cancelled => {
                self.placed_at is Some && self.completed_at is None && self.time_taken is None
            },
            OrderStatus::Completed => {
                &&& self.placed_at is Some
                &&& self.completed_at is Some
                &&& self.time_taken == Some(self.completed_at->0 - self.placed_at->0)
            },
        }
    }

    /// What holds of every order that this library has created and changed.
    pub open spec fn well_formed(self) -> bool {
        self.priced() && self.timed()
    }

    /// Whether `later` can be what has become of this order: it is the same
    /// order of the same user with the same restaurant, with the same lines
    /// and total; its status is the same or follows by legal transitions; a
    /// payment time and a session address, once recorded, are kept; and an
    /// order in a terminal status has not changed at all.
    pub open spec fn continued_by(self, later: OrderModel) -> bool {
        &&& later.id == self.id
        &&& later.user_id == self.user_id
        &&& later.restaurant_id == self.restaurant_id
        &&& later.items == self.items
        &&& later.total == self.total
        &&& later.created_at == self.created_at
        &&& (later.status == self.status || self.status.leads_to(later.status))
        &&& self.placed_at is Some ==> later.placed_at == self.placed_at
        &&& self.payment_url is Some ==> later.payment_url == self.payment_url
        &&& self.status.terminal() ==> later == self
    }

    /// The seconds from the confirmed payment to `now`, where a payment time is
    /// recorded.
    pub open spec fn elapsed(self, now: int) -> Option<int> {
        match self.placed_at {
            Some(t) => Some(now - t),
            None => None,
        }
    }

    /// Whether the seconds from the confirmed payment to `now` fit the
    /// duration field.
    pub open spec fn duration_fits(self, now: int) -> bool {
        match self.elapsed(now) {
            Some(d) => i32::MIN <= d <= i32::MAX,
            None => true,
        }
    }

    /// Whether the order can move to status `to` at `now`: the transition is
    /// legal, and a completion has a duration that fits its field.
    pub open spec fn can_move(self, to: OrderStatus, now: int) -> bool {
        self.status.allows(to) && (to == OrderStatus::Completed ==> self.duration_fits(now))
    }

    /// The order after it moved to status `to` at `now`. `Paid` records `now`
    /// as the payment time; `Completed` records `now` as the completion time
    /// and the seconds since the payment as the duration.
    pub open spec fn moved(self, to: OrderStatus, now: int) -> OrderModel {
        match to {
            OrderStatus::PaymentPending => self,
            OrderStatus::Paid => OrderModel { status: to, placed_at: Some(now), ..self },
            OrderStatus::PaymentFailed => OrderModel { status: to, ..self },
            OrderStatus::Cancelled => OrderModel { status: to, ..self },
            OrderStatus::Completed => OrderModel {
                status: to,
                completed_at: Some(now),
                time_taken: self.elapsed(now),
                ..self
            },
        }
    }

    /// The order after its payment was confirmed at `now`. Only a pending order
    /// changes.
    pub open spec fn paid(self, now: int) -> OrderModel {
        if self.status == OrderStatus::PaymentPending {
            self.moved(OrderStatus::Paid, now)
        } else {
            self
        }
    }

    /// The order after its payment failed. Only a pending order changes.
    pub open spec fn failed(self) -> OrderModel {
        if self.status == OrderStatus::PaymentPending {
            self.moved(OrderStatus::PaymentFailed, 0)
        } else {
            self
        }
    }

    /// Whether `restaurant` can complete the order at `now`: it owns the order,
    /// the order is paid, and the duration fits the stored field.
    pub open spec fn completable(self, restaurant: Id, now: int) -> bool {
        &&& self.restaurant_id == restaurant
        &&& self.can_move(OrderStatus::Completed, now)
    }

    /// The order after `restaurant` completed it at `now`.
    pub open spec fn completed(self, restaurant: Id, now: int) -> OrderModel {
        if self.completable(restaurant, now) {
            self.moved(OrderStatus::Completed, now)
        } else {
            self
        }
    }

    /// Whether `user` may cancel the order at `now`: it is the user's own paid
    /// order, and at most a minute has passed since the payment.
    pub open spec fn user_cancellable(self, user: Id, now: int) -> bool {
        &&& self.user_id == user
        &&& self.status == OrderStatus::Paid
        &&& self.placed_at matches Some(t) && now - t <= USER_CANCEL_WINDOW_SECS
    }

    /// Whether `restaurant` may cancel the order: it owns the order and the
    /// order is paid. No time limit applies.
    pub open spec fn restaurant_cancellable(self, restaurant: Id) -> bool {
        self.restaurant_id == restaurant && self.status == OrderStatus::Paid
    }

    /// The order with its status set to `Cancelled`.
    pub open spec fn cancelled(self) -> OrderModel {
        self.moved(OrderStatus::Cancelled, 0)
    }

    /// The order after the provider opened a payment session at `url`. Only a
    /// pending order without a session takes it.
    pub open spec fn with_session(self, url: Seq<char>) -> OrderModel {
        if self.status == OrderStatus::PaymentPending && self.payment_url is None {
            OrderModel { payment_url: Some(url), ..self }
        } else {
            self
        }
    }
}

/// The product of a price and a quantity lies within sixty-two bits.
proof fn lemma_line_bound(price: int, quantity: int)
    requires
        i32::MIN <= price <= i32::MAX,
        i32::MIN <= quantity <= i32::MAX,
    ensures
        -0x4000_0000_0000_0000 <= price * quantity <= 0x4000_0000_0000_0000,
{
    assert(-0x4000_0000_0000_0000 <= price * quantity <= 0x4000_0000_0000_0000)
        by (nonlinear_arith)
        requires
            -0x8000_0000 <= price <= 0x7fff_ffff,
            -0x8000_0000 <= quantity <= 0x7fff_ffff,
    ;
}

/// The total of a list of line items, where it fits the stored field.
pub fn total_of(items: &Vec<Item>) -> (total: Option<i32>)
    ensures
        total == (if i32::MIN <= items_total(item_models(items@)) <= i32::MAX {
            Some(items_total(item_models(items@)) as i32)
        } else {
            None
        }),
{
    let ghost lines = item_models(items@);
    let mut sum: i128 = 0;
    let mut i: usize = 0;
    while i < items.len()
        invariant
            lines == item_models(items@),
            i <= items@.len(),
            sum == items_total(lines.take(i as int)),
            -0x4000_0000_0000_0000 * i <= sum <= 0x4000_0000_0000_0000 * i,
        decreases items@.len() - i,
    {
        let price: i64 = items[i].price as i64;
        let quantity: i64 = items[i].quantity as i64;
        proof {
            lemma_line_bound(price as int, quantity as int);
            assert(lines.take(i + 1).drop_last() =~= lines.take(i as int));
            assert(lines.take(i + 1).last() == items@[i as int]@);
        }
        let line: i64 = price * quantity;
        sum = sum + line as i128;
        i = i + 1;
    }
    assert(lines.take(i as int) =~= lines);
    if sum < i32::MIN as i128 || sum > i32::MAX as i128 {
        None
    } else {
        Some(sum as i32)
    }
}

impl Order {
    /// Whether the order is well formed: its lines have positive quantities,
    /// its total is their sum, and its times agree with its status.
    pub fn is_well_formed(&self) -> (well_formed: bool)
        ensures
            well_formed == self@.well_formed(),
    {
        let mut k: usize = 0;
        while k < self.items.len()
            invariant
                k <= self.items@.len(),
                forall|j: int| 0 <= j < k ==> (#[trigger] self@.items[j]).quantity > 0,
            decreases self.items@.len() - k,
        {
            if self.items[k].quantity <= 0 {
                assert(self@.items[k as int].quantity <= 0);
                return false;
            }
            k = k + 1;
        }
        match total_of(&self.items) {
            Some(total) => {
                if total != self.total {
                    return false;
                }
            },
            None => {
                return false;
            },
        }
        match self.status {
            OrderStatus::PaymentPending | OrderStatus::PaymentFailed => {
                self.order_placed_time.is_none() && self.order_completed_time.is_none()
                    && self.time_taken.is_none()
            },
            OrderStatus::Paid | OrderStatus::Cancelled => {
                self.order_placed_time.is_some() && self.order_completed_time.is_none()
                    && self.time_taken.is_none()
            },
            OrderStatus::Completed => match (
                self.order_placed_time,
                self.order_completed_time,
                self.time_taken,
            ) {
                (Some(placed), Some(completed), Some(taken)) => {
                    completed as i128 - placed as i128 == taken as i128
                },
                _ => false,
            },
        }
    }

    /// Moves the order to status `to` at `now` where `can_move` allows it, and
    /// leaves it unchanged where not. Returns whether it moved.
    pub fn transition(&mut self, to: OrderStatus, now: i64) -> (moved: bool)
        ensures
            moved == old(self)@.can_move(to, now as int),
            moved ==> final(self)@ == old(self)@.moved(to, now as int),
            !moved ==> final(self)@ == old(self)@,
    {
        if !self.status.can_become(to) {
            return false;
        }
        match to {
            OrderStatus::PaymentPending => false,
            OrderStatus::Paid => {
                self.status = to;
                self.order_placed_time = Some(now);
                true
            },
            OrderStatus::PaymentFailed => {
                self.status = to;
                true
            },
            OrderStatus::Cancelled => {
                self.status = to;
                true
            },
            OrderStatus::Completed => {
                let time_taken: Option<i32> = match self.order_placed_time {
                    Some(placed) => {
                        let elapsed: i128 = now as i128 - placed as i128;
                        if elapsed < i32::MIN as i128 || elapsed > i32::MAX as i128 {
                            return false;
                        }
                        Some(elapsed as i32)
                    },
                    None => None,
                };
                self.status = to;
                self.order_completed_time = Some(now);
                self.time_taken = time_taken;
                true
            },
        }
    }

    /// Records that the payment was confirmed at `now`: a pending order
    /// becomes `Paid` with `now` as its payment time. Any other order is left
    /// as it is. Returns whether the order changed.
    pub fn mark_paid(&mut self, now: i64) -> (changed: bool)
        ensures
            final(self)@ == old(self)@.paid(now as int),
            changed == (old(self).status == OrderStatus::PaymentPending),
    {
        self.transition(OrderStatus::Paid, now)
    }

    /// Records that the payment failed: a pending order becomes
    /// `PaymentFailed`. Any other order is left as it is. Returns whether the
    /// order changed.
    pub fn mark_failed(&mut self) -> (changed: bool)
        ensures
            final(self)@ == old(self)@.failed(),
            changed == (old(self).status == OrderStatus::PaymentPending),
    {
        self.transition(OrderStatus::PaymentFailed, 0)
    }

    /// Completes the order for `restaurant` at `now`, if that restaurant owns
    /// it, it is paid and the seconds since the payment fit the duration
    /// field. Then the status is `Completed`, the completion time is `now` and
    /// the duration is `now` less the payment time. Otherwise nothing changes.
    /// Returns whether the order changed.
    pub fn complete(&mut self, restaurant: Id, now: i64) -> (changed: bool)
        ensures
            final(self)@ == old(self)@.completed(restaurant, now as int),
            changed == old(self)@.completable(restaurant, now as int),
    {
        if self.restaurant_id != restaurant {
            return false;
        }
        self.transition(OrderStatus::Completed, now)
    }

    /// Whether `user` may cancel the order at `now`.
    pub fn user_may_cancel(&self, user: Id, now: i64) -> (allowed: bool)
        ensures
            allowed == self@.user_cancellable(user, now as int),
    {
        if self.user_id != user {
            return false;
        }
        match self.status {
            OrderStatus::Paid => {},
            _ => {
                return false;
            },
        }
        match self.order_placed_time {
            Some(placed) => now as i128 - placed as i128 <= USER_CANCEL_WINDOW_SECS as i128,
            None => false,
        }
    }

    /// Cancels the order for `user` at `now` where `user_may_cancel` allows
    /// it, and leaves it unchanged where not. Returns whether it was
    /// cancelled.
    pub fn cancel_by_user(&mut self, user: Id, now: i64) -> (cancelled: bool)
        ensures
            cancelled == old(self)@.user_cancellable(user, now as int),
            cancelled ==> final(self)@ == old(self)@.cancelled(),
            !cancelled ==> final(self)@ == old(self)@,
    {
        if self.user_may_cancel(user, now) {
            self.transition(OrderStatus::Cancelled, now)
        } else {
            false
        }
    }

    /// Whether `restaurant` may cancel the order.
    pub fn restaurant_may_cancel(&self, restaurant: Id) -> (allowed: bool)
        ensures
            allowed == self@.restaurant_cancellable(restaurant),
    {
        if self.restaurant_id != restaurant {
            return false;
        }
        match self.status {
            OrderStatus::Paid => true,
            _ => false,
        }
    }

    /// Cancels the order for `restaurant` where `restaurant_may_cancel` allows
    /// it, and leaves it unchanged where not. Returns whether it was
    /// cancelled.
    pub fn cancel_by_restaurant(&mut self, restaurant: Id) -> (cancelled: bool)
        ensures
            cancelled == old(self)@.restaurant_cancellable(restaurant),
            cancelled ==> final(self)@ == old(self)@.cancelled(),
            !cancelled ==> final(self)@ == old(self)@,
    {
        if self.restaurant_may_cancel(restaurant) {
            self.transition(OrderStatus::Cancelled, 0)
        } else {
            false
        }
    }

    /// Stores the address of the payment session that the provider opened. A
    /// pending order without a session takes it; any other order is left as it
    /// is. Returns whether the address was stored.
    pub fn open_session(&mut self, url: String) -> (stored: bool)
        ensures
            final(self)@ == old(self)@.with_session(url@),
            stored == (old(self).status == OrderStatus::PaymentPending && old(
                self,
            ).payment_url is None),
    {
        match self.status {
            OrderStatus::PaymentPending => {},
            _ => {
                return false;
            },
        }
        if self.payment_url.is_some() {
            return false;
        }
        self.payment_url = Some(url);
        true
    }
}

} // verus!
