//! Listing the orders of a user or a restaurant.
//!
//! A listing shows the orders of one actor that were created within the last
//! days and have been paid. A user also sees, beside each order that is still
//! waiting to be completed, how long their completed orders took on average.

use crate::auth::{Auth, AuthRestaurant, AuthUser};
use crate::order::{Id, Order, OrderModel};
use crate::status::OrderStatus;
use crate::store::{OrderStore, order_models};
use vstd::prelude::*;

verus! {

/// The seconds of a day.
pub const DAY_SECS: i64 = 86_400;

/// Whether the order was created less than `days` days before `now`.
pub open spec fn in_window(order: OrderModel, days: int, now: int) -> bool {
    order.created_at > now - days * DAY_SECS
}

/// Whether `actor` is shown the order, whenever it was created. A user sees
/// their own orders that are paid, completed or cancelled; a restaurant sees
/// its own orders that are paid or completed.
pub open spec fn shown_to(order: OrderModel, actor: Auth) -> bool {
    match actor {
        Auth::User(u) => {
            &&& order.user_id == u.user_id
            &&& (order.status == OrderStatus::Completed || order.status == OrderStatus::Paid
                || order.status == OrderStatus::Cancelled)
        },
        Auth::Restaurant(r) => {
            &&& order.restaurant_id == r.restaurant_id
            &&& (order.status == OrderStatus::Completed || order.status == OrderStatus::Paid)
        },
    }
}

/// The orders that a listing for `actor` over the last `days` days shows.
pub open spec fn listed_by(actor: Auth, days: int, now: int) -> spec_fn(OrderModel) -> bool {
    |order: OrderModel| shown_to(order, actor) && in_window(order, days, now)
}

/// Whether the order counts towards the average wait of `user`: it is a
/// completed order of that user with a recorded duration.
pub open spec fn counts_as_wait(order: OrderModel, user: Id) -> bool {
    order.user_id == user && order.status == OrderStatus::Completed && order.time_taken is Some
}

/// How many orders of the table count towards the average wait of `user`.
pub open spec fn wait_count(table: Seq<OrderModel>, user: Id) -> nat
    decreases table.len(),
{
    if table.len() == 0 {
        0
    } else if counts_as_wait(table.last(), user) {
        wait_count(table.drop_last(), user) + 1
    } else {
        wait_count(table.drop_last(), user)
    }
}

/// The sum of the durations of the orders that count towards the average wait
/// of `user`.
pub open spec fn wait_sum(table: Seq<OrderModel>, user: Id) -> int
    decreases table.len(),
{
    if table.len() == 0 {
        0
    } else if counts_as_wait(table.last(), user) {
        wait_sum(table.drop_last(), user) + table.last().time_taken->0
    } else {
        wait_sum(table.drop_last(), user)
    }
}

/// The quotient of `a` by a positive `b`, rounded towards zero.
pub open spec fn truncated_quotient(a: int, b: int) -> int {
    if a >= 0 {
        a / b
    } else {
        -((-a) / b)
    }
}

/// The average duration of the completed orders of `user`, rounded towards
/// zero; zero where the user has none.
pub open spec fn average_wait(table: Seq<OrderModel>, user: Id) -> int {
    if wait_count(table, user) == 0 {
        0
    } else {
        truncated_quotient(wait_sum(table, user), wait_count(table, user) as int)
    }
}

/// The average wait that is shown beside an order in a listing for `actor`:
/// beside a user's paid order the average wait of that user, beside any other
/// order nothing.
pub open spec fn wait_shown(table: Seq<OrderModel>, order: OrderModel, actor: Auth) -> Option<int> {
    match actor {
        Auth::User(u) => if order.status == OrderStatus::Paid {
            Some(average_wait(table, u.user_id))
        } else {
            None
        },
        Auth::Restaurant(_) => None,
    }
}

/// One entry of a listing.
#[derive(Clone, Copy, Debug)]
pub struct ListedOrder<'a> {
    pub order: &'a Order,
    pub avg_wait_time: Option<i32>,
}

/// The orders of the entries of a listing, in order.
pub open spec fn listed_orders(entries: Seq<ListedOrder>) -> Seq<OrderModel> {
    Seq::new(entries.len(), |i: int| entries[i].order@)
}

/// Whether every entry of a listing for `actor` shows the average wait that
/// is due beside it.
pub open spec fn waits_shown(
    table: Seq<OrderModel>,
    entries: Seq<ListedOrder>,
    actor: Auth,
) -> bool {
    forall|k: int|
        0 <= k < entries.len() ==> (match (#[trigger] entries[k]).avg_wait_time {
            Some(wait) => wait_shown(table, entries[k].order@, actor) == Some(wait as int),
            None => wait_shown(table, entries[k].order@, actor) is None,
        })
}

/// A quotient rounded towards zero lies between the bounds of its terms.
proof fn lemma_average_bounds(sum: int, count: int)
    requires
        count > 0,
        i32::MIN * count <= sum <= i32::MAX * count,
    ensures
        i32::MIN <= truncated_quotient(sum, count) <= i32::MAX,
{
    if sum >= 0 {
        assert(0 <= sum / count <= 0x7fff_ffff) by (nonlinear_arith)
            requires
                count > 0,
                0 <= sum <= 0x7fff_ffff * count,
        ;
    } else {
        assert(0 <= (-sum) / count <= 0x8000_0000) by (nonlinear_arith)
            requires
                count > 0,
                0 <= -sum <= 0x8000_0000 * count,
        ;
    }
}

impl OrderStore {
    /// The average duration of the completed orders of `user`, in seconds and
    /// rounded towards zero; zero where the user has none.
    pub fn average_wait_time(&self, user: Id) -> (average: i32)
        ensures
            average == average_wait(self@, user),
    {
        let rows = self.rows();
        let ghost table = self@;
        let mut sum: i128 = 0;
        let mut count: usize = 0;
        let mut i: usize = 0;
        while i < rows.len()
            invariant
                i <= rows@.len(),
                table == order_models(rows@),
                count == wait_count(table.take(i as int), user),
                sum == wait_sum(table.take(i as int), user),
                count <= i,
                i32::MIN * count <= sum <= i32::MAX * count,
            decreases rows@.len() - i,
        {
            proof {
                assert(table.take(i + 1).drop_last() =~= table.take(i as int));
                assert(table.take(i + 1).last() == rows@[i as int]@);
            }
            let order = &rows[i];
            if order.user_id == user {
                match order.status {
                    OrderStatus::Completed => match order.time_taken {
                        Some(taken) => {
                            sum = sum + taken as i128;
                            count = count + 1;
                        },
                        None => {},
                    },
                    _ => {},
                }
            }
            i = i + 1;
        }
        assert(table.take(i as int) =~= table);
        if count == 0 {
            return 0;
        }
        proof {
            lemma_average_bounds(sum as int, count as int);
        }
        if sum >= 0 {
            ((sum as u128) / (count as u128)) as i32
        } else {
            let magnitude: u128 = (-sum) as u128;
            let quotient: u128 = magnitude / (count as u128);
            (-(quotient as i128)) as i32
        }
    }

    /// The orders that `actor` is shown from the last `days` days, in the
    /// order in which they were created, each with the average wait that is
    /// due beside it.
    pub fn get_orders(&self, actor: Auth, days: i32, now: i64) -> (entries: Vec<ListedOrder<'_>>)
        ensures
            listed_orders(entries@) == self@.filter(listed_by(actor, days as int, now as int)),
            waits_shown(self@, entries@, actor),
    {
        let average: Option<i32> = match actor {
            Auth::User(u) => Some(self.average_wait_time(u.user_id)),
            Auth::Restaurant(_) => None,
        };
        let rows = self.rows();
        let ghost table = self@;
        let ghost shown = listed_by(actor, days as int, now as int);
        assert(-0x8000_0000 * 86_400 <= days * DAY_SECS <= 0x7fff_ffff * 86_400) by (nonlinear_arith)
            requires
                DAY_SECS == 86_400,
                -0x8000_0000 <= days <= 0x7fff_ffff,
        ;
        let cutoff: i128 = now as i128 - (days as i128) * (DAY_SECS as i128);
        let mut entries: Vec<ListedOrder<'_>> = Vec::new();
        let mut i: usize = 0;
        proof {
            reveal(Seq::filter);
            assert(table.take(0).filter(shown) =~= Seq::<OrderModel>::empty());
        }
        while i < rows.len()
            invariant
                i <= rows@.len(),
                table == order_models(rows@),
                table == self@,
                shown == listed_by(actor, days as int, now as int),
                cutoff == now - days * DAY_SECS,
                listed_orders(entries@) == table.take(i as int).filter(shown),
                waits_shown(table, entries@, actor),
                match actor {
                    Auth::User(u) => average == Some(average_wait(table, u.user_id) as i32)
                        && i32::MIN <= average_wait(table, u.user_id) <= i32::MAX,
                    Auth::Restaurant(_) => average is None,
                },
            decreases rows@.len() - i,
        {
            let order = &rows[i];
            let owned = match actor {
                Auth::User(u) => order.user_id == u.user_id && (match order.status {
                    OrderStatus::Completed | OrderStatus::Paid | OrderStatus::Cancelled => true,
                    _ => false,
                }),
                Auth::Restaurant(r) => order.restaurant_id == r.restaurant_id && (match order
                    .status {
                    OrderStatus::Completed | OrderStatus::Paid => true,
                    _ => false,
                }),
            };
            let ghost before = listed_orders(entries@);
            proof {
                reveal(Seq::filter);
                assert(table.take(i + 1).drop_last() =~= table.take(i as int));
                assert(table.take(i + 1).last() == order@);
            }
            if owned && order.created_at as i128 > cutoff {
                let avg_wait_time = match order.status {
                    OrderStatus::Paid => average,
                    _ => None,
                };
                entries.push(ListedOrder { order, avg_wait_time });
                assert(listed_orders(entries@) =~= before.push(order@));
            }
            i = i + 1;
        }
        assert(table.take(i as int) =~= table);
        entries
    }

    /// The orders that `user` is shown from the last `days` days.
    pub fn get_orders_user(&self, user: AuthUser, days: i32, now: i64) -> (entries: Vec<
        ListedOrder<'_>,
    >)
        ensures
            listed_orders(entries@) == self@.filter(
                listed_by(Auth::User(user), days as int, now as int),
            ),
            waits_shown(self@, entries@, Auth::User(user)),
    {
        self.get_orders(Auth::User(user), days, now)
    }

    /// The orders that `restaurant` is shown from the last `days` days. No
    /// average wait stands beside them.
    pub fn get_orders_restaurant(
        &self,
        restaurant: AuthRestaurant,
        days: i32,
        now: i64,
    ) -> (entries: Vec<ListedOrder<'_>>)
        ensures
            listed_orders(entries@) == self@.filter(
                listed_by(Auth::Restaurant(restaurant), days as int, now as int),
            ),
            forall|k: int|
                0 <= k < entries@.len() ==> (#[trigger] entries@[k]).avg_wait_time is None,
    {
        let entries = self.get_orders(Auth::Restaurant(restaurant), days, now);
        assert forall|k: int| 0 <= k < entries@.len() implies (#[trigger] entries@[k]).avg_wait_time
            is None by {
            assert(wait_shown(self@, entries@[k].order@, Auth::Restaurant(restaurant)) is None);
        }
        entries
    }
}

} // verus!
