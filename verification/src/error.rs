//! The failures that the library reports.

use vstd::prelude::*;

verus! {

/// Why an operation on orders was refused. A refused operation changes
/// nothing.
#[derive(Clone, Copy, Debug, PartialEq, Eq, Structural)]
pub enum OrderError {
    /// No such order exists for the actor who asked. An order that belongs to
    /// somebody else is reported in the same way as one that does not exist.
    NotFound,
    /// The requested line at this position names an item that the catalog does
    /// not hold.
    ItemNotFound(usize),
    /// The requested line at this position has a quantity of zero or less.
    InvalidQuantity(usize),
    /// The restaurant is unknown or has no merchant credentials.
    RestaurantNotFound,
    /// The sum of the lines does not fit the total field.
    TotalOutOfRange,
    /// An order with this identifier exists already.
    DuplicateOrder,
    /// The seconds between payment and completion do not fit the duration
    /// field.
    DurationOutOfRange,
}

/// Why an answer of the payment provider could not be used. None of these
/// changes an order: the caller may ask the provider again.
#[derive(Clone, Copy, Debug, PartialEq, Eq, Structural)]
pub enum PaymentError {
    /// The provider answered with an HTTP status outside the successful range.
    Rejected,
    /// The body of the answer could not be read as JSON.
    Unreadable,
    /// The answer holds no status code.
    CodeMissing,
    /// The status code of the answer is not a string.
    CodeNotText,
    /// The status code is none of those that the provider is known to send.
    UnknownCode,
    /// The answer holds no address for the payment page.
    UrlMissing,
}

} // verus!
