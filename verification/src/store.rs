//! The table of orders.
//!
//! Every order in the table has its own identifier, a total that is the sum of
//! its lines, and times that agree with its status. Orders are added and
//! changed, never removed. Each change is conditional: it names the state that
//! it expects and does nothing where the order is in another one.

use crate::error::OrderError;
use crate::order::{Id, Item, ItemModel, Order, OrderModel, item_models, items_total, total_of};
use crate::status::OrderStatus;
use vstd::prelude::*;

verus! {

/// The values of a list of orders, in order.
pub open spec fn order_models(orders: Seq<Order>) -> Seq<OrderModel> {
    Seq::new(orders.len(), |i: int| orders[i]@)
}

/// Whether a table holds an order under `id`.
pub open spec fn holds(table: Seq<OrderModel>, id: Id) -> bool {
    exists|i: int| 0 <= i < table.len() && (#[trigger] table[i]).id == id
}

/// Whether `i` is a position at which the table holds an order under `id`.
pub open spec fn is_row(table: Seq<OrderModel>, id: Id, i: int) -> bool {
    0 <= i < table.len() && table[i].id == id
}

/// A position at which the table holds an order under `id`.
pub open spec fn row_of(table: Seq<OrderModel>, id: Id) -> int {
    choose|i: int| is_row(table, id, i)
}

/// The order that the table holds under `id`.
pub open spec fn row(table: Seq<OrderModel>, id: Id) -> OrderModel {
    table[row_of(table, id)]
}

/// The table with `order` in place of the order held under `id`.
pub open spec fn with_row(table: Seq<OrderModel>, id: Id, order: OrderModel) -> Seq<OrderModel> {
    table.update(row_of(table, id), order)
}

/// Whether no two orders of the table share an identifier.
pub open spec fn distinct_ids(table: Seq<OrderModel>) -> bool {
    forall|i: int, j: int|
        0 <= i < table.len() && 0 <= j < table.len() && i != j ==> (#[trigger] table[i]).id != (
        #[trigger] table[j]).id
}

/// What holds of every table of orders: identifiers are distinct and every
/// order is well formed.
pub open spec fn sound(table: Seq<OrderModel>) -> bool {
    &&& distinct_ids(table)
    &&& forall|i: int| 0 <= i < table.len() ==> (#[trigger] table[i]).well_formed()
}

/// Whether `after` can be what has become of the table `before`: no order
/// has left it, and each order that it held is continued by the order at the
/// same place.
pub open spec fn evolves(before: Seq<OrderModel>, after: Seq<OrderModel>) -> bool {
    &&& before.len() <= after.len()
    &&& forall|i: int| 0 <= i < before.len() ==> (#[trigger] before[i]).continued_by(after[i])
}

/// A new order for the given lines, waiting for its payment.
pub open spec fn fresh_order(
    id: Id,
    restaurant_id: Id,
    user_id: Id,
    items: Seq<ItemModel>,
    now: int,
) -> OrderModel {
    OrderModel {
        id,
        restaurant_id,
        user_id,
        items,
        total: items_total(items),
        status: OrderStatus::PaymentPending,
        created_at: now,
        placed_at: None,
        completed_at: None,
        time_taken: None,
        payment_url: None,
    }
}

/// Whether the first `k` lines all have a positive quantity.
pub open spec fn positive_before(items: Seq<ItemModel>, k: int) -> bool {
    forall|j: int| 0 <= j < k ==> (#[trigger] items[j]).quantity > 0
}

/// Whether the sum of the lines fits the total field.
pub open spec fn total_fits(items: Seq<ItemModel>) -> bool {
    i32::MIN <= items_total(items) <= i32::MAX
}

/// Whether an order with these lines can be created under `id`: the
/// identifier is new, every quantity is positive and the total fits.
pub open spec fn creatable(table: Seq<OrderModel>, id: Id, items: Seq<ItemModel>) -> bool {
    !holds(table, id) && positive_before(items, items.len() as int) && total_fits(items)
}

/// Whether `fault` is the reason for which an order with these lines cannot be
/// created under `id`. A taken identifier is reported before a quantity, the
/// first bad quantity before a total that does not fit.
pub open spec fn creation_refused(
    table: Seq<OrderModel>,
    id: Id,
    items: Seq<ItemModel>,
    fault: OrderError,
) -> bool {
    match fault {
        OrderError::DuplicateOrder => holds(table, id),
        OrderError::InvalidQuantity(k) => {
            &&& !holds(table, id)
            &&& k < items.len()
            &&& positive_before(items, k as int)
            &&& items[k as int].quantity <= 0
        },
        OrderError::TotalOutOfRange => {
            &&& !holds(table, id)
            &&& positive_before(items, items.len() as int)
            &&& !total_fits(items)
        },
        _ => false,
    }
}

/// Where the table holds an order under `id`, its row is the only one.
pub proof fn lemma_row_unique(table: Seq<OrderModel>, id: Id, i: int)
    requires
        distinct_ids(table),
        is_row(table, id, i),
    ensures
        row_of(table, id) == i,
        holds(table, id),
{
    let j = row_of(table, id);
    assert(is_row(table, id, j));
}

/// A table stays sound when one of its orders is replaced by a well-formed one
/// with the same identifier.
pub proof fn lemma_update_keeps_sound(table: Seq<OrderModel>, i: int, order: OrderModel)
    requires
        sound(table),
        0 <= i < table.len(),
        order.id == table[i].id,
        order.well_formed(),
    ensures
        sound(table.update(i, order)),
{
    let after = table.update(i, order);
    assert forall|j: int| 0 <= j < after.len() implies (#[trigger] after[j]).well_formed() by {
        assert(table[j].well_formed());
    }
    assert forall|a: int, b: int|
        0 <= a < after.len() && 0 <= b < after.len() && a != b implies (#[trigger] after[a]).id != (
    #[trigger] after[b]).id by {
        assert(table[a].id != table[b].id);
    }
}

/// A table stays sound when a well-formed order with a new identifier is
/// added.
pub proof fn lemma_push_keeps_sound(table: Seq<OrderModel>, order: OrderModel)
    requires
        sound(table),
        !holds(table, order.id),
        order.well_formed(),
    ensures
        sound(table.push(order)),
{
    let after = table.push(order);
    assert forall|j: int| 0 <= j < after.len() implies (#[trigger] after[j]).well_formed() by {
        if j < table.len() {
            assert(table[j].well_formed());
        }
    }
    assert forall|a: int, b: int|
        0 <= a < after.len() && 0 <= b < after.len() && a != b implies (#[trigger] after[a]).id != (
    #[trigger] after[b]).id by {
        if a < table.len() && b < table.len() {
            assert(table[a].id != table[b].id);
        } else if a < table.len() {
            assert(table[a].id != order.id);
        } else {
            assert(table[b].id != order.id);
        }
    }
}

/// A table stays sound when one of its orders makes a move that it can make.
pub proof fn lemma_move_keeps_sound(table: Seq<OrderModel>, i: int, to: OrderStatus, now: int)
    requires
        sound(table),
        0 <= i < table.len(),
        table[i].can_move(to, now),
    ensures
        sound(table.update(i, table[i].moved(to, now))),
{
    lemma_update_keeps_sound(table, i, table[i].moved(to, now));
}

/// The table of orders.
#[derive(Debug)]
pub struct OrderStore {
    pub(crate) orders: Vec<Order>,
}

impl View for OrderStore {
    type V = Seq<OrderModel>;

    closed spec fn view(&self) -> Seq<OrderModel> {
        order_models(self.orders@)
    }
}

impl OrderStore {
    #[verifier::type_invariant]
    spec fn kept(self) -> bool {
        sound(self@)
    }

    /// An empty table.
    pub fn new() -> (store: OrderStore)
        ensures
            store@ == Seq::<OrderModel>::empty(),
    {
        let store = OrderStore { orders: Vec::new() };
        assert(store@ =~= Seq::<OrderModel>::empty());
        store
    }

    /// Takes the rows out of the table, which is empty until they are put
    /// back.
    pub(crate) fn take_rows(&mut self) -> (rows: Vec<Order>)
        ensures
            order_models(rows@) == old(self)@,
            sound(old(self)@),
            final(self)@ == Seq::<OrderModel>::empty(),
    {
        proof {
            use_type_invariant(&*self);
        }
        let mut rows: Vec<Order> = Vec::new();
        assert(order_models(rows@) =~= Seq::<OrderModel>::empty());
        std::mem::swap(&mut self.orders, &mut rows);
        rows
    }

    /// Makes `rows` the rows of the table.
    pub(crate) fn put_rows(&mut self, rows: Vec<Order>)
        requires
            sound(order_models(rows@)),
        ensures
            final(self)@ == order_models(rows@),
    {
        self.orders = rows;
    }

    /// The orders, in the order in which they were created. They form a
    /// sound table.
    pub fn rows(&self) -> (orders: &Vec<Order>)
        ensures
            order_models(orders@) == self@,
            sound(self@),
    {
        proof {
            use_type_invariant(self);
        }
        &self.orders
    }

    /// The position of the order stored under `id`.
    pub fn position(&self, id: Id) -> (found: Option<usize>)
        ensures
            match found {
                Some(i) => is_row(self@, id, i as int) && row_of(self@, id) == i,
                None => !holds(self@, id),
            },
    {
        proof {
            use_type_invariant(self);
        }
        let mut i: usize = 0;
        while i < self.orders.len()
            invariant
                i <= self.orders@.len(),
                self@ == order_models(self.orders@),
                distinct_ids(self@),
                forall|j: int| 0 <= j < i ==> (#[trigger] self@[j]).id != id,
            decreases self.orders@.len() - i,
        {
            if self.orders[i].id == id {
                proof {
                    lemma_row_unique(self@, id, i as int);
                }
                return Some(i);
            }
            i = i + 1;
        }
        None
    }

    /// The order stored under `id`.
    pub fn get(&self, id: Id) -> (found: Option<&Order>)
        ensures
            match found {
                Some(order) => holds(self@, id) && order@ == row(self@, id),
                None => !holds(self@, id),
            },
    {
        match self.position(id) {
            Some(i) => Some(&self.orders[i]),
            None => None,
        }
    }

    /// Moves the order stored under `id` to status `to`, if its status is one
    /// of `from` and the order can move there at `now`. Returns whether it
    /// moved; where it did not, the table is unchanged.
    pub fn transition_status(
        &mut self,
        id: Id,
        from: &[OrderStatus],
        to: OrderStatus,
        now: i64,
    ) -> (moved: bool)
        ensures
            evolves(old(self)@, final(self)@),
            moved == (holds(old(self)@, id) && from@.contains(row(old(self)@, id).status) && row(
                old(self)@,
                id,
            ).can_move(to, now as int)),
            moved ==> final(self)@ == with_row(
                old(self)@,
                id,
                row(old(self)@, id).moved(to, now as int),
            ),
            !moved ==> final(self)@ == old(self)@,
    {
        proof {
            use_type_invariant(&*self);
        }
        let i = match self.position(id) {
            Some(i) => i,
            None => {
                return false;
            },
        };
        let status = self.orders[i].status;
        let mut listed = false;
        let mut k: usize = 0;
        while k < from.len()
            invariant
                k <= from@.len(),
                listed == exists|j: int| 0 <= j < k && from@[j] == status,
            decreases from@.len() - k,
        {
            if from[k] == status {
                listed = true;
            }
            k = k + 1;
        }
        if !listed {
            return false;
        }
        let ghost before = self@;
        let mut rows = self.take_rows();
        let moved = rows[i].transition(to, now);
        proof {
            let after = order_models(rows@);
            if moved {
                assert(after =~= before.update(i as int, before[i as int].moved(to, now as int)));
                lemma_move_keeps_sound(before, i as int, to, now as int);
            } else {
                assert(after =~= before);
            }
        }
        self.put_rows(rows);
        moved
    }

    /// Makes a table of rows that were stored before. The rows are taken only
    /// if they form a sound table.
    pub fn from_rows(rows: Vec<Order>) -> (store: Option<OrderStore>)
        ensures
            match store {
                Some(table) => sound(order_models(rows@)) && table@ == order_models(rows@),
                None => !sound(order_models(rows@)),
            },
    {
        let ghost table = order_models(rows@);
        let mut i: usize = 0;
        while i < rows.len()
            invariant
                i <= rows@.len(),
                table == order_models(rows@),
                forall|a: int| 0 <= a < i ==> (#[trigger] table[a]).well_formed(),
                forall|a: int, b: int|
                    0 <= a < i && 0 <= b < a ==> (#[trigger] table[a]).id != (
                    #[trigger] table[b]).id,
            decreases rows@.len() - i,
        {
            if !rows[i].is_well_formed() {
                assert(!table[i as int].well_formed());
                return None;
            }
            let mut j: usize = 0;
            while j < i
                invariant
                    j <= i < rows@.len(),
                    table == order_models(rows@),
                    forall|b: int| 0 <= b < j ==> table[i as int].id != (#[trigger] table[b]).id,
                decreases i - j,
            {
                if rows[j].id == rows[i].id {
                    assert(table[i as int].id == table[j as int].id);
                    return None;
                }
                j = j + 1;
            }
            i = i + 1;
        }
        assert forall|a: int, b: int|
            0 <= a < table.len() && 0 <= b < table.len() && a != b implies (#[trigger] table[a]).id
            != (#[trigger] table[b]).id by {
            if b < a {
                assert(table[a].id != table[b].id);
            } else {
                assert(table[b].id != table[a].id);
            }
        }
        Some(OrderStore { orders: rows })
    }

    /// Creates an order for the given lines under `id`, waiting for its
    /// payment, with the sum of the lines as its total.
    ///
    /// The order is added as a whole or not at all: where it cannot be created
    /// the table is unchanged and the reason is returned.
    pub fn create_order(
        &mut self,
        id: Id,
        restaurant_id: Id,
        user_id: Id,
        items: Vec<Item>,
        now: i64,
    ) -> (created: Result<(), OrderError>)
        ensures
            evolves(old(self)@, final(self)@),
            match created {
                Ok(()) => {
                    &&& creatable(old(self)@, id, item_models(items@))
                    &&& final(self)@ == old(self)@.push(
                        fresh_order(id, restaurant_id, user_id, item_models(items@), now as int),
                    )
                },
                Err(fault) => {
                    &&& creation_refused(old(self)@, id, item_models(items@), fault)
                    &&& final(self)@ == old(self)@
                },
            },
    {
        if self.position(id).is_some() {
            return Err(OrderError::DuplicateOrder);
        }
        let ghost lines = item_models(items@);
        let mut k: usize = 0;
        while k < items.len()
            invariant
                k <= items@.len(),
                lines == item_models(items@),
                positive_before(lines, k as int),
                !holds(self@, id),
                self@ == old(self)@,
            decreases items@.len() - k,
        {
            if items[k].quantity <= 0 {
                assert(lines[k as int].quantity <= 0);
                return Err(OrderError::InvalidQuantity(k));
            }
            k = k + 1;
        }
        let total = match total_of(&items) {
            Some(total) => total,
            None => {
                return Err(OrderError::TotalOutOfRange);
            },
        };
        let order = Order {
            id,
            restaurant_id,
            user_id,
            items,
            total,
            status: OrderStatus::PaymentPending,
            created_at: now,
            order_placed_time: None,
            order_completed_time: None,
            time_taken: None,
            payment_url: None,
        };
        let ghost before = self@;
        let ghost fresh = fresh_order(id, restaurant_id, user_id, lines, now as int);
        assert(order@ == fresh);
        let mut rows = self.take_rows();
        rows.push(order);
        proof {
            assert(order_models(rows@) =~= before.push(fresh));
            lemma_push_keeps_sound(before, fresh);
        }
        self.put_rows(rows);
        Ok(())
    }

    /// Records that the payment of the order stored under `id` was confirmed
    /// at `now`: a pending order becomes `Paid` with `now` as its payment
    /// time. Returns whether that happened; where not, the table is unchanged.
    pub fn record_payment_placed(&mut self, id: Id, now: i64) -> (recorded: bool)
        ensures
            evolves(old(self)@, final(self)@),
            recorded == (holds(old(self)@, id) && row(old(self)@, id).status
                == OrderStatus::PaymentPending),
            recorded ==> final(self)@ == with_row(
                old(self)@,
                id,
                row(old(self)@, id).moved(OrderStatus::Paid, now as int),
            ),
            !recorded ==> final(self)@ == old(self)@,
    {
        let from: [OrderStatus; 1] = [OrderStatus::PaymentPending];
        let moved = self.transition_status(id, from.as_slice(), OrderStatus::Paid, now);
        proof {
            assert(from@[0] == OrderStatus::PaymentPending);
            if holds(old(self)@, id) {
                let status = old(self)@[row_of(old(self)@, id)].status;
                if from@.contains(status) {
                    assert(status == OrderStatus::PaymentPending);
                }
            }
        }
        moved
    }

    /// Completes the order stored under `id` for `restaurant` at `now`, if
    /// that restaurant owns it, it is paid and the duration fits. Returns the
    /// user who placed the order if it was completed by this call, and `None`
    /// with the table unchanged if not.
    pub fn record_completion(&mut self, id: Id, restaurant: Id, now: i64) -> (user: Option<Id>)
        ensures
            evolves(old(self)@, final(self)@),
            match user {
                Some(user_id) => {
                    &&& holds(old(self)@, id)
                    &&& row(old(self)@, id).completable(restaurant, now as int)
                    &&& user_id == row(old(self)@, id).user_id
                    &&& final(self)@ == with_row(
                        old(self)@,
                        id,
                        row(old(self)@, id).moved(OrderStatus::Completed, now as int),
                    )
                },
                None => {
                    &&& !(holds(old(self)@, id) && row(old(self)@, id).completable(
                        restaurant,
                        now as int,
                    ))
                    &&& final(self)@ == old(self)@
                },
            },
    {
        let i = match self.position(id) {
            Some(i) => i,
            None => {
                return None;
            },
        };
        let ghost before = self@;
        let mut rows = self.take_rows();
        let user_id = rows[i].user_id;
        let changed = rows[i].complete(restaurant, now);
        proof {
            let after = order_models(rows@);
            if changed {
                assert(after =~= before.update(
                    i as int,
                    before[i as int].moved(OrderStatus::Completed, now as int),
                ));
                lemma_move_keeps_sound(before, i as int, OrderStatus::Completed, now as int);
            } else {
                assert(after =~= before);
            }
        }
        self.put_rows(rows);
        if changed {
            Some(user_id)
        } else {
            None
        }
    }
}

} // verus!
