//! The notices that follow from changes to an order.
//!
//! The library says which notice is due; delivering it is the caller's part,
//! and a failed delivery does not undo the change that caused it.

use crate::order::Id;
use vstd::prelude::*;
use vstd::string::StringExecFns;

verus! {

/// How long a notice about an order stays valid: one day, in minutes.
pub const ORDER_NOTICE_TTL_MINUTES: i32 = 1440;

/// A notice to be stored and pushed.
#[derive(Debug)]
pub struct Notification {
    pub sender_id: Option<Id>,
    /// The user it is for; `None` addresses every user.
    pub recipient_id: Option<Id>,
    pub title: String,
    pub body: String,
    pub ttl_minutes: i32,
}

/// The mathematical value of a notice.
pub struct NotificationModel {
    pub sender_id: Option<Id>,
    pub recipient_id: Option<Id>,
    pub title: Seq<char>,
    pub body: Seq<char>,
    pub ttl_minutes: int,
}

impl View for Notification {
    type V = NotificationModel;

    open spec fn view(&self) -> NotificationModel {
        NotificationModel {
            sender_id: self.sender_id,
            recipient_id: self.recipient_id,
            title: self.title@,
            body: self.body@,
            ttl_minutes: self.ttl_minutes as int,
        }
    }
}

/// A notice as a restaurant sees it in the list of those it has sent to
/// everybody.
#[derive(Debug)]
pub struct NotificationRestaurant {
    pub id: Id,
    pub title: String,
    pub body: String,
    pub ttl_minutes: i32,
    /// Seconds since the epoch.
    pub created_at: i64,
}

/// A notice as a user sees it.
#[derive(Debug)]
pub struct NotificationUser {
    pub id: Id,
    pub title: String,
    pub body: String,
    pub restaurant_name: String,
    pub restaurant_id: Id,
    pub ttl_minutes: i32,
    /// Seconds since the epoch.
    pub created_at: i64,
}

/// The notice that tells `user` that `restaurant` has completed the order.
pub open spec fn completion_notice(restaurant: Id, user: Id) -> NotificationModel {
    NotificationModel {
        sender_id: Some(restaurant),
        recipient_id: Some(user),
        title: "Order Completed"@,
        body: "Your order has been completed"@,
        ttl_minutes: ORDER_NOTICE_TTL_MINUTES as int,
    }
}

/// The notice that tells `user` that `restaurant` has cancelled the order.
pub open spec fn cancellation_notice(restaurant: Id, user: Id) -> NotificationModel {
    NotificationModel {
        sender_id: Some(restaurant),
        recipient_id: Some(user),
        title: "Order Cancelled"@,
        body: "Your order has been cancelled by restaurant"@,
        ttl_minutes: ORDER_NOTICE_TTL_MINUTES as int,
    }
}

/// Whether `user` is shown a notice: it has a sender, and it is addressed to
/// that user or to everybody.
pub open spec fn shown_to_user(notice: NotificationModel, user: Id) -> bool {
    notice.sender_id is Some && (notice.recipient_id == Some(user) || notice.recipient_id is None)
}

/// Whether `restaurant` lists a notice among its own: it sent the notice, to
/// everybody.
pub open spec fn listed_by_restaurant(notice: NotificationModel, restaurant: Id) -> bool {
    notice.sender_id == Some(restaurant) && notice.recipient_id is None
}

impl Notification {
    /// The notice for a completed order.
    pub fn order_completed(restaurant: Id, user: Id) -> (notice: Notification)
        ensures
            notice@ == completion_notice(restaurant, user),
    {
        Notification {
            sender_id: Some(restaurant),
            recipient_id: Some(user),
            title: String::from_str("Order Completed"),
            body: String::from_str("Your order has been completed"),
            ttl_minutes: ORDER_NOTICE_TTL_MINUTES,
        }
    }

    /// The notice for an order that its restaurant cancelled.
    pub fn order_cancelled(restaurant: Id, user: Id) -> (notice: Notification)
        ensures
            notice@ == cancellation_notice(restaurant, user),
    {
        Notification {
            sender_id: Some(restaurant),
            recipient_id: Some(user),
            title: String::from_str("Order Cancelled"),
            body: String::from_str("Your order has been cancelled by restaurant"),
            ttl_minutes: ORDER_NOTICE_TTL_MINUTES,
        }
    }

    /// A notice from `restaurant` to every user.
    pub fn send_notification(
        restaurant: Id,
        title: String,
        body: String,
        ttl_minutes: i32,
    ) -> (notice: Notification)
        ensures
            notice@ == (NotificationModel {
                sender_id: Some(restaurant),
                recipient_id: None,
                title: title@,
                body: body@,
                ttl_minutes: ttl_minutes as int,
            }),
    {
        Notification { sender_id: Some(restaurant), recipient_id: None, title, body, ttl_minutes }
    }

    /// Whether `user` is shown this notice.
    pub fn is_shown_to_user(&self, user: Id) -> (shown: bool)
        ensures
            shown == shown_to_user(self@, user),
    {
        if self.sender_id.is_none() {
            return false;
        }
        match self.recipient_id {
            Some(recipient) => recipient == user,
            None => true,
        }
    }

    /// Whether `restaurant` lists this notice among its own.
    pub fn is_listed_by_restaurant(&self, restaurant: Id) -> (listed: bool)
        ensures
            listed == listed_by_restaurant(self@, restaurant),
    {
        match self.sender_id {
            Some(sender) => sender == restaurant && self.recipient_id.is_none(),
            None => false,
        }
    }
}

} // verus!
