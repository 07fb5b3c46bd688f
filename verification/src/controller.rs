//! The operations that users and restaurants perform on orders.
//!
//! Each operation checks who is asking, applies at most one change to one
//! order, and says which notice is due. An order that belongs to somebody else
//! is treated like an order that does not exist.

use crate::auth::{Auth, AuthRestaurant, AuthUser};
use crate::catalog::{
    CatalogItem, NewItem, clean_before, fault_at, is_first_fault, resolve_items, snapshots,
};
use crate::error::OrderError;
use crate::notification::{Notification, cancellation_notice, completion_notice};
use crate::order::{Id, Item, OrderModel, item_models};
use crate::payment::{
    MerchantAccount, Payment, PaymentStatus, SessionStep, after_verification,
    get_restaurant_phonpe_details, has_account, next_step, session_answer, verification_answer,
};
use crate::status::OrderStatus;
use crate::store::{
    OrderStore, evolves, fresh_order, holds, lemma_move_keeps_sound, lemma_update_keeps_sound,
    order_models, row, total_fits, with_row,
};
use vstd::prelude::*;

verus! {

/// Whether the table holds an order under `id` that `user` placed.
pub open spec fn user_owns(table: Seq<OrderModel>, id: Id, user: Id) -> bool {
    holds(table, id) && row(table, id).user_id == user
}

/// Whether the table holds an order under `id` that was placed with
/// `restaurant`.
pub open spec fn restaurant_owns(table: Seq<OrderModel>, id: Id, restaurant: Id) -> bool {
    holds(table, id) && row(table, id).restaurant_id == restaurant
}

/// Whether an order can be placed: the restaurant has credentials, every
/// requested line is in order, the identifier is new and the total fits.
pub open spec fn placeable(
    table: Seq<OrderModel>,
    catalog: Seq<CatalogItem>,
    accounts: Seq<MerchantAccount>,
    id: Id,
    restaurant: Id,
    requested: Seq<NewItem>,
) -> bool {
    &&& has_account(accounts, restaurant)
    &&& clean_before(catalog, requested, requested.len() as int)
    &&& !holds(table, id)
    &&& total_fits(snapshots(catalog, requested))
}

/// Whether `fault` is the reason for which an order cannot be placed. A
/// restaurant without credentials is reported first, then the first requested
/// line that is not in order, then a taken identifier, then a total that does
/// not fit.
pub open spec fn placement_refused(
    table: Seq<OrderModel>,
    catalog: Seq<CatalogItem>,
    accounts: Seq<MerchantAccount>,
    id: Id,
    restaurant: Id,
    requested: Seq<NewItem>,
    fault: OrderError,
) -> bool {
    match fault {
        OrderError::RestaurantNotFound => !has_account(accounts, restaurant),
        OrderError::ItemNotFound(_) | OrderError::InvalidQuantity(_) => {
            &&& has_account(accounts, restaurant)
            &&& is_first_fault(catalog, requested, fault)
        },
        OrderError::DuplicateOrder => {
            &&& has_account(accounts, restaurant)
            &&& clean_before(catalog, requested, requested.len() as int)
            &&& holds(table, id)
        },
        OrderError::TotalOutOfRange => {
            &&& has_account(accounts, restaurant)
            &&& clean_before(catalog, requested, requested.len() as int)
            &&& !holds(table, id)
            &&& !total_fits(snapshots(catalog, requested))
        },
        _ => false,
    }
}

/// What a cancellation request came to.
#[derive(Debug)]
pub struct Cancellation {
    /// Whether the order was cancelled by this request.
    pub cancelled: bool,
    /// The notice that is due, if any.
    pub notice: Option<Notification>,
}

impl OrderStore {
    /// Places an order of `user` with `restaurant` for the requested lines.
    ///
    /// The lines are resolved against the catalog as it is now, and the order
    /// keeps copies of the names and prices found. It starts as
    /// `PaymentPending`. Where the order cannot be placed nothing is stored
    /// and the reason is returned.
    pub fn place_order(
        &mut self,
        catalog: &Vec<CatalogItem>,
        accounts: &Vec<MerchantAccount>,
        user: AuthUser,
        id: Id,
        restaurant: Id,
        requested: &Vec<NewItem>,
        now: i64,
    ) -> (placed: Result<(), OrderError>)
        ensures
            evolves(old(self)@, final(self)@),
            match placed {
                Ok(()) => {
                    &&& placeable(old(self)@, catalog@, accounts@, id, restaurant, requested@)
                    &&& final(self)@ == old(self)@.push(
                        fresh_order(
                            id,
                            restaurant,
                            user.user_id,
                            snapshots(catalog@, requested@),
                            now as int,
                        ),
                    )
                },
                Err(fault) => {
                    &&& placement_refused(
                        old(self)@,
                        catalog@,
                        accounts@,
                        id,
                        restaurant,
                        requested@,
                        fault,
                    )
                    &&& final(self)@ == old(self)@
                },
            },
    {
        if get_restaurant_phonpe_details(accounts, restaurant).is_none() {
            return Err(OrderError::RestaurantNotFound);
        }
        let items = match resolve_items(catalog, requested) {
            Ok(items) => items,
            Err(fault) => {
                return Err(fault);
            },
        };
        match self.create_order(id, restaurant, user.user_id, items, now) {
            Ok(()) => Ok(()),
            Err(fault) => {
                proof {
                    let lines = snapshots(catalog@, requested@);
                    if let OrderError::InvalidQuantity(k) = fault {
                        assert(fault_at(catalog@, requested@, k as int) is None);
                        assert(lines[k as int].quantity > 0);
                    }
                }
                Err(fault)
            },
        }
    }

    /// What has to happen next for the payment of the order stored under
    /// `id`, asked by the user who placed it.
    pub fn get_payment_session(&self, id: Id, user: AuthUser) -> (step: Result<
        SessionStep,
        OrderError,
    >)
        ensures
            step == (if user_owns(self@, id, user.user_id) {
                Ok::<SessionStep, OrderError>(next_step(row(self@, id)))
            } else {
                Err::<SessionStep, OrderError>(OrderError::NotFound)
            }),
    {
        match self.get(id) {
            Some(order) => {
                if order.user_id == user.user_id {
                    Ok(order.session_step())
                } else {
                    Err(OrderError::NotFound)
                }
            },
            None => Err(OrderError::NotFound),
        }
    }

    /// Applies what the provider reported about the payment of the order
    /// stored under `id` and answers the user who placed it.
    ///
    /// Only a pending order changes: to `Paid`, with `now` as its payment
    /// time, or to `PaymentFailed`. A report of `Pending`, and any report
    /// about an order that is settled already, changes nothing.
    pub fn record_verification(
        &mut self,
        id: Id,
        user: AuthUser,
        status: PaymentStatus,
        now: i64,
    ) -> (answer: Result<Payment, OrderError>)
        ensures
            evolves(old(self)@, final(self)@),
            match answer {
                Ok(payment) => {
                    &&& user_owns(old(self)@, id, user.user_id)
                    &&& payment@ == verification_answer(row(old(self)@, id), status)
                    &&& final(self)@ == with_row(
                        old(self)@,
                        id,
                        after_verification(row(old(self)@, id), status, now as int),
                    )
                },
                Err(fault) => {
                    &&& fault == OrderError::NotFound
                    &&& !user_owns(old(self)@, id, user.user_id)
                    &&& final(self)@ == old(self)@
                },
            },
    {
        let i = match self.position(id) {
            Some(i) => i,
            None => {
                return Err(OrderError::NotFound);
            },
        };
        let ghost before = self@;
        let mut rows = self.take_rows();
        if rows[i].user_id != user.user_id {
            self.put_rows(rows);
            return Err(OrderError::NotFound);
        }
        let payment = rows[i].record_verification(status, now);
        proof {
            let changed = after_verification(before[i as int], status, now as int);
            assert(order_models(rows@) =~= before.update(i as int, changed));
            lemma_update_keeps_sound(before, i as int, changed);
        }
        self.put_rows(rows);
        Ok(payment)
    }

    /// Stores the address of the session that the provider opened for the
    /// order stored under `id` and answers the user who placed it. An order
    /// that has a session already, or is no longer pending, keeps what it has.
    pub fn record_session(&mut self, id: Id, user: AuthUser, url: String) -> (answer: Result<
        Payment,
        OrderError,
    >)
        ensures
            evolves(old(self)@, final(self)@),
            match answer {
                Ok(payment) => {
                    &&& user_owns(old(self)@, id, user.user_id)
                    &&& payment@ == session_answer(row(old(self)@, id), url@)
                    &&& final(self)@ == with_row(
                        old(self)@,
                        id,
                        row(old(self)@, id).with_session(url@),
                    )
                },
                Err(fault) => {
                    &&& fault == OrderError::NotFound
                    &&& !user_owns(old(self)@, id, user.user_id)
                    &&& final(self)@ == old(self)@
                },
            },
    {
        let i = match self.position(id) {
            Some(i) => i,
            None => {
                return Err(OrderError::NotFound);
            },
        };
        let ghost before = self@;
        let mut rows = self.take_rows();
        if rows[i].user_id != user.user_id {
            self.put_rows(rows);
            return Err(OrderError::NotFound);
        }
        let payment = rows[i].record_session(url);
        proof {
            let changed = before[i as int].with_session(url@);
            assert(order_models(rows@) =~= before.update(i as int, changed));
            lemma_update_keeps_sound(before, i as int, changed);
        }
        self.put_rows(rows);
        Ok(payment)
    }

    /// Completes the order stored under `id` for the restaurant that owns it.
    ///
    /// A paid order becomes `Completed`, and the notice for its user is
    /// returned. An order in any other status is left as it is, and no notice
    /// is due: completing twice is not an error. An order of another
    /// restaurant is not found, and neither is one that does not exist. A paid
    /// order whose duration does not fit its field is refused and stays paid.
    pub fn complete_order(
        &mut self,
        id: Id,
        restaurant: AuthRestaurant,
        now: i64,
    ) -> (notice: Result<Option<Notification>, OrderError>)
        ensures
            evolves(old(self)@, final(self)@),
            match notice {
                Ok(Some(due)) => {
                    &&& restaurant_owns(old(self)@, id, restaurant.restaurant_id)
                    &&& row(old(self)@, id).completable(restaurant.restaurant_id, now as int)
                    &&& due@ == completion_notice(
                        restaurant.restaurant_id,
                        row(old(self)@, id).user_id,
                    )
                    &&& final(self)@ == with_row(
                        old(self)@,
                        id,
                        row(old(self)@, id).moved(OrderStatus::Completed, now as int),
                    )
                },
                Ok(None) => {
                    &&& restaurant_owns(old(self)@, id, restaurant.restaurant_id)
                    &&& row(old(self)@, id).status != OrderStatus::Paid
                    &&& final(self)@ == old(self)@
                },
                Err(fault) => {
                    &&& final(self)@ == old(self)@
                    &&& match fault {
                        OrderError::NotFound => !restaurant_owns(
                            old(self)@,
                            id,
                            restaurant.restaurant_id,
                        ),
                        OrderError::DurationOutOfRange => {
                            &&& restaurant_owns(old(self)@, id, restaurant.restaurant_id)
                            &&& row(old(self)@, id).status == OrderStatus::Paid
                            &&& !row(old(self)@, id).duration_fits(now as int)
                        },
                        _ => false,
                    }
                },
            },
    {
        let status = match self.get(id) {
            Some(order) => {
                if order.restaurant_id != restaurant.restaurant_id {
                    return Err(OrderError::NotFound);
                }
                order.status
            },
            None => {
                return Err(OrderError::NotFound);
            },
        };
        match status {
            OrderStatus::Paid => {},
            _ => {
                return Ok(None);
            },
        }
        match self.record_completion(id, restaurant.restaurant_id, now) {
            Some(user_id) => {
                Ok(Some(Notification::order_completed(restaurant.restaurant_id, user_id)))
            },
            None => Err(OrderError::DurationOutOfRange),
        }
    }

    /// Cancels the order stored under `id` for the user who placed it, if it
    /// is paid and at most a minute has passed since the payment. Otherwise
    /// the order stays as it is and the answer is `false`. Nobody is notified.
    pub fn cancel_order_user(&mut self, id: Id, user: AuthUser, now: i64) -> (cancelled: Result<
        bool,
        OrderError,
    >)
        ensures
            evolves(old(self)@, final(self)@),
            match cancelled {
                Ok(done) => {
                    &&& user_owns(old(self)@, id, user.user_id)
                    &&& done == row(old(self)@, id).user_cancellable(user.user_id, now as int)
                    &&& done ==> final(self)@ == with_row(
                        old(self)@,
                        id,
                        row(old(self)@, id).cancelled(),
                    )
                    &&& !done ==> final(self)@ == old(self)@
                },
                Err(fault) => {
                    &&& fault == OrderError::NotFound
                    &&& !user_owns(old(self)@, id, user.user_id)
                    &&& final(self)@ == old(self)@
                },
            },
    {
        let i = match self.position(id) {
            Some(i) => i,
            None => {
                return Err(OrderError::NotFound);
            },
        };
        let ghost before = self@;
        let mut rows = self.take_rows();
        if rows[i].user_id != user.user_id {
            self.put_rows(rows);
            return Err(OrderError::NotFound);
        }
        let done = rows[i].cancel_by_user(user.user_id, now);
        proof {
            if done {
                assert(order_models(rows@) =~= before.update(
                    i as int,
                    before[i as int].cancelled(),
                ));
                lemma_move_keeps_sound(before, i as int, OrderStatus::Cancelled, 0);
            } else {
                assert(order_models(rows@) =~= before);
            }
        }
        self.put_rows(rows);
        Ok(done)
    }

    /// Cancels the order stored under `id` for the restaurant that owns it, if
    /// it is paid, however long ago it was paid. The notice for its user is
    /// returned. An order in any other status stays as it is.
    pub fn cancel_order_restaurant(
        &mut self,
        id: Id,
        restaurant: AuthRestaurant,
    ) -> (notice: Result<Option<Notification>, OrderError>)
        ensures
            evolves(old(self)@, final(self)@),
            match notice {
                Ok(Some(due)) => {
                    &&& restaurant_owns(old(self)@, id, restaurant.restaurant_id)
                    &&& row(old(self)@, id).status == OrderStatus::Paid
                    &&& due@ == cancellation_notice(
                        restaurant.restaurant_id,
                        row(old(self)@, id).user_id,
                    )
                    &&& final(self)@ == with_row(old(self)@, id, row(old(self)@, id).cancelled())
                },
                Ok(None) => {
                    &&& restaurant_owns(old(self)@, id, restaurant.restaurant_id)
                    &&& row(old(self)@, id).status != OrderStatus::Paid
                    &&& final(self)@ == old(self)@
                },
                Err(fault) => {
                    &&& fault == OrderError::NotFound
                    &&& !restaurant_owns(old(self)@, id, restaurant.restaurant_id)
                    &&& final(self)@ == old(self)@
                },
            },
    {
        let i = match self.position(id) {
            Some(i) => i,
            None => {
                return Err(OrderError::NotFound);
            },
        };
        let ghost before = self@;
        let mut rows = self.take_rows();
        if rows[i].restaurant_id != restaurant.restaurant_id {
            self.put_rows(rows);
            return Err(OrderError::NotFound);
        }
        let user_id = rows[i].user_id;
        let done = rows[i].cancel_by_restaurant(restaurant.restaurant_id);
        proof {
            if done {
                assert(order_models(rows@) =~= before.update(
                    i as int,
                    before[i as int].cancelled(),
                ));
                lemma_move_keeps_sound(before, i as int, OrderStatus::Cancelled, 0);
            } else {
                assert(order_models(rows@) =~= before);
            }
        }
        self.put_rows(rows);
        if done {
            Ok(Some(Notification::order_cancelled(restaurant.restaurant_id, user_id)))
        } else {
            Ok(None)
        }
    }

    /// Cancels the order stored under `id` on behalf of `actor`: under the
    /// user's rule for a user, under the restaurant's rule for a restaurant.
    /// Only a restaurant's cancellation raises a notice.
    pub fn cancel_order(&mut self, id: Id, actor: Auth, now: i64) -> (outcome: Result<
        Cancellation,
        OrderError,
    >)
        ensures
            evolves(old(self)@, final(self)@),
            match outcome {
                Ok(cancellation) => {
                    &&& actor_owns(old(self)@, id, actor)
                    &&& cancellation.cancelled == may_cancel(row(old(self)@, id), actor, now as int)
                    &&& cancellation.cancelled ==> final(self)@ == with_row(
                        old(self)@,
                        id,
                        row(old(self)@, id).cancelled(),
                    )
                    &&& !cancellation.cancelled ==> final(self)@ == old(self)@
                    &&& match cancellation.notice {
                        Some(due) => {
                            &&& cancellation.cancelled
                            &&& actor matches Auth::Restaurant(r)
                            &&& due@ == cancellation_notice(
                                r.restaurant_id,
                                row(old(self)@, id).user_id,
                            )
                        },
                        None => !(cancellation.cancelled && actor is Restaurant),
                    }
                },
                Err(fault) => {
                    &&& fault == OrderError::NotFound
                    &&& !actor_owns(old(self)@, id, actor)
                    &&& final(self)@ == old(self)@
                },
            },
    {
        match actor {
            Auth::User(user) => match self.cancel_order_user(id, user, now) {
                Ok(cancelled) => Ok(Cancellation { cancelled, notice: None }),
                Err(fault) => Err(fault),
            },
            Auth::Restaurant(restaurant) => match self.cancel_order_restaurant(id, restaurant) {
                Ok(Some(due)) => Ok(Cancellation { cancelled: true, notice: Some(due) }),
                Ok(None) => Ok(Cancellation { cancelled: false, notice: None }),
                Err(fault) => Err(fault),
            },
        }
    }

    /// The lines of the order stored under `id`.
    pub fn get_items(&self, id: Id) -> (items: Option<&Vec<Item>>)
        ensures
            match items {
                Some(lines) => holds(self@, id) && item_models(lines@) == row(self@, id).items,
                None => !holds(self@, id),
            },
    {
        match self.get(id) {
            Some(order) => Some(&order.items),
            None => None,
        }
    }
}

/// Whether the table holds an order under `id` that belongs to `actor`: that
/// the user placed, or that was placed with the restaurant.
pub open spec fn actor_owns(table: Seq<OrderModel>, id: Id, actor: Auth) -> bool {
    match actor {
        Auth::User(u) => user_owns(table, id, u.user_id),
        Auth::Restaurant(r) => restaurant_owns(table, id, r.restaurant_id),
    }
}

/// Whether `actor` may cancel the order at `now`. A user may cancel a paid
/// order of their own for a minute after the payment; a restaurant may cancel
/// a paid order of its own at any time.
pub open spec fn may_cancel(order: OrderModel, actor: Auth, now: int) -> bool {
    match actor {
        Auth::User(u) => order.user_cancellable(u.user_id, now),
        Auth::Restaurant(r) => order.restaurant_cancellable(r.restaurant_id),
    }
}

} // verus!
