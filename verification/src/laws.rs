//! What holds of every order and of every table of orders, whatever is done
//! with them.

use crate::auth::Auth;
use crate::catalog::{CatalogItem, NewItem};
use crate::controller::{may_cancel, placeable, placement_refused};
use crate::error::OrderError;
use crate::order::{Id, ItemModel, OrderModel, USER_CANCEL_WINDOW_SECS, items_total};
use crate::payment::{
    MerchantAccount, PaymentModel, PaymentStatus, SessionStep, after_verification, next_step,
    session_answer, verification_answer,
};
use crate::status::OrderStatus;
use crate::store::{
    creatable, creation_refused, evolves, fresh_order, holds, is_row, lemma_push_keeps_sound,
    positive_before, row, sound, with_row,
};
use vstd::prelude::*;

verus! {

/// A new order is well formed: its total is the sum of price times quantity
/// over its lines, and it waits for its payment.
pub proof fn law_new_order_is_priced(
    id: Id,
    restaurant: Id,
    user: Id,
    items: Seq<ItemModel>,
    now: int,
)
    requires
        positive_before(items, items.len() as int),
    ensures
        fresh_order(id, restaurant, user, items, now).total == items_total(items),
        fresh_order(id, restaurant, user, items, now).items == items,
        fresh_order(id, restaurant, user, items, now).status == OrderStatus::PaymentPending,
        fresh_order(id, restaurant, user, items, now).well_formed(),
{
}

/// Price integrity over time: however a table evolves, each order that it held
/// keeps its lines and its total, so the total stays the sum over the lines
/// that were copied when the order was created.
pub proof fn law_evolution_keeps_prices(before: Seq<OrderModel>, after: Seq<OrderModel>, i: int)
    requires
        evolves(before, after),
        0 <= i < before.len(),
    ensures
        after[i].id == before[i].id,
        after[i].items == before[i].items,
        after[i].total == before[i].total,
        before[i].priced() ==> after[i].priced(),
{
    assert(before[i].continued_by(after[i]));
}

/// Evolution is reflexive and composes: what holds from one operation to the
/// next holds over any number of operations.
pub proof fn law_evolution_composes(
    first: Seq<OrderModel>,
    second: Seq<OrderModel>,
    third: Seq<OrderModel>,
)
    requires
        evolves(first, second),
        evolves(second, third),
    ensures
        evolves(first, third),
        evolves(first, first),
{
    assert forall|i: int| 0 <= i < first.len() implies (#[trigger] first[i]).continued_by(
        third[i],
    ) by {
        assert(first[i].continued_by(second[i]));
        assert(second[i].continued_by(third[i]));
    }
}

/// However a table evolves, an order in a terminal status stays exactly as it
/// is, and no order returns to a status that it has left.
pub proof fn law_terminal_orders_never_change(
    before: Seq<OrderModel>,
    after: Seq<OrderModel>,
    i: int,
)
    requires
        evolves(before, after),
        0 <= i < before.len(),
    ensures
        before[i].status.terminal() ==> after[i] == before[i],
        before[i].status.stage() <= after[i].status.stage(),
        !after[i].status.leads_to(before[i].status),
{
    assert(before[i].continued_by(after[i]));
}

/// No operation changes an order in a terminal status: it cannot move to any
/// status, a report of the provider and a new session leave it as it is, and
/// neither its restaurant nor its user can complete or cancel it.
pub proof fn law_terminal_order_ignores_every_change(
    order: OrderModel,
    to: OrderStatus,
    status: PaymentStatus,
    actor: Auth,
    restaurant: Id,
    url: Seq<char>,
    now: int,
)
    requires
        order.status.terminal(),
    ensures
        !order.can_move(to, now),
        order.paid(now) == order,
        order.failed() == order,
        order.completed(restaurant, now) == order,
        !may_cancel(order, actor, now),
        order.with_session(url) == order,
        after_verification(order, status, now) == order,
        next_step(order) is Settled,
{
}

/// Every single change continues the order it is applied to, and keeps it
/// well formed.
pub proof fn law_changes_continue_the_order(
    order: OrderModel,
    to: OrderStatus,
    status: PaymentStatus,
    restaurant: Id,
    url: Seq<char>,
    now: int,
)
    requires
        order.well_formed(),
    ensures
        order.can_move(to, now) ==> order.moved(to, now).well_formed(),
        order.paid(now).well_formed(),
        order.failed().well_formed(),
        order.completed(restaurant, now).well_formed(),
        order.with_session(url).well_formed(),
        after_verification(order, status, now).well_formed(),
        order.can_move(to, now) ==> order.continued_by(order.moved(to, now)),
        order.continued_by(order.paid(now)),
        order.continued_by(order.failed()),
        order.continued_by(order.completed(restaurant, now)),
        order.status == OrderStatus::Paid ==> order.continued_by(order.cancelled()),
        order.continued_by(order.with_session(url)),
        order.continued_by(after_verification(order, status, now)),
{
}

/// Creating an order is all or nothing, and which of the two is decided by
/// the inputs: what is refused for some reason cannot be created.
pub proof fn law_creation_is_decided(
    table: Seq<OrderModel>,
    id: Id,
    items: Seq<ItemModel>,
    fault: OrderError,
)
    requires
        creation_refused(table, id, items, fault),
    ensures
        !creatable(table, id, items),
{
}

/// Placing an order is all or nothing, and which of the two is decided by the
/// inputs: what is refused for some reason cannot be placed.
pub proof fn law_placement_is_decided(
    table: Seq<OrderModel>,
    catalog: Seq<CatalogItem>,
    accounts: Seq<MerchantAccount>,
    id: Id,
    restaurant: Id,
    requested: Seq<NewItem>,
    fault: OrderError,
)
    requires
        placement_refused(table, catalog, accounts, id, restaurant, requested, fault),
    ensures
        !placeable(table, catalog, accounts, id, restaurant, requested),
{
}

/// Adding an order leaves every order that the table held as it was, and a
/// sound table stays sound.
pub proof fn law_adding_keeps_existing_orders(table: Seq<OrderModel>, order: OrderModel, i: int)
    requires
        0 <= i < table.len(),
    ensures
        table.push(order)[i] == table[i],
        evolves(table, table.push(order)),
        sound(table) && !holds(table, order.id) && order.well_formed() ==> sound(table.push(order)),
{
    assert forall|k: int| 0 <= k < table.len() implies (#[trigger] table[k]).continued_by(
        table.push(order)[k],
    ) by {}
    if sound(table) && !holds(table, order.id) && order.well_formed() {
        lemma_push_keeps_sound(table, order);
    }
}

/// Polling a pending order that has a session changes nothing while the
/// provider reports the payment as pending: the provider is asked for the
/// status, no second session is opened, and the answer is the stored address
/// every time.
pub proof fn law_pending_poll_changes_nothing(order: OrderModel, other: Seq<char>, now: int)
    requires
        order.status == OrderStatus::PaymentPending,
        order.payment_url is Some,
    ensures
        next_step(order) == SessionStep::Verify,
        after_verification(order, PaymentStatus::Pending, now) == order,
        verification_answer(order, PaymentStatus::Pending) == (PaymentModel {
            status: PaymentStatus::Pending,
            url: order.payment_url,
        }),
        order.with_session(other) == order,
        session_answer(order, other) == (PaymentModel {
            status: PaymentStatus::Pending,
            url: order.payment_url,
        }),
{
}

/// Putting back the order that a table holds leaves the table as it is: an
/// operation that changes nothing in the order changes nothing at all.
pub proof fn law_unchanged_order_keeps_table(table: Seq<OrderModel>, id: Id)
    requires
        holds(table, id),
    ensures
        with_row(table, id, row(table, id)) == table,
{
    let i = choose|i: int| 0 <= i < table.len() && (#[trigger] table[i]).id == id;
    assert(is_row(table, id, i));
    assert(with_row(table, id, row(table, id)) =~= table);
}

/// A session is opened once: after the address of the first session is
/// stored, the next step is to ask for its status, and an address that
/// arrives later is dropped in favour of the stored one.
pub proof fn law_session_is_opened_once(order: OrderModel, url: Seq<char>, other: Seq<char>)
    requires
        next_step(order) == SessionStep::Create,
    ensures
        order.with_session(url).payment_url == Some(url),
        next_step(order.with_session(url)) == SessionStep::Verify,
        order.with_session(url).with_session(other) == order.with_session(url),
        session_answer(order.with_session(url), other) == session_answer(order, url),
{
}

/// The user's cancellation window: the user who placed a paid order may
/// cancel it exactly as long as no more than sixty seconds have passed since
/// the payment, and nobody else's request counts as the user's.
pub proof fn law_user_cancellation_window(order: OrderModel, user: Id, placed: int, now: int)
    requires
        order.status == OrderStatus::Paid,
        order.placed_at == Some(placed),
    ensures
        order.user_cancellable(user, now) <==> order.user_id == user && now - placed
            <= USER_CANCEL_WINDOW_SECS,
        USER_CANCEL_WINDOW_SECS == 60,
{
}

/// The authorization boundary: a restaurant that does not own an order can
/// neither complete nor cancel it, and a user who did not place it cannot
/// cancel it.
pub proof fn law_foreign_actor_changes_nothing(order: OrderModel, actor: Auth, now: int)
    requires
        match actor {
            Auth::User(u) => order.user_id != u.user_id,
            Auth::Restaurant(r) => order.restaurant_id != r.restaurant_id,
        },
    ensures
        !may_cancel(order, actor, now),
        actor matches Auth::Restaurant(r) ==> !order.completable(r.restaurant_id, now)
            && order.completed(r.restaurant_id, now) == order,
{
}

} // verus!
