//! The payment provider: what is sent to it, how its answers are read, and
//! what an answer does to an order.
//!
//! A pending order gets one payment session. Until the provider reports the
//! payment as made or failed, every poll returns the address of that session;
//! afterwards the order's own status is the answer and the provider is not
//! asked again.

use crate::error::PaymentError;
use crate::order::{Id, Order, OrderModel};
use crate::signature::{calc_xverify, hex_lower, texts, xverify};
use crate::status::OrderStatus;
use crate::text::{append_decimal, decimal, str_eq};
use vstd::prelude::*;
use vstd::string::StringExecFns;

verus! {

/// What the provider, or the order itself, says of a payment.
#[derive(Clone, Copy, Debug, PartialEq, Eq, Structural)]
pub enum PaymentStatus {
    Paid,
    Pending,
    Failed,
}

/// The answer to a user who asks how the payment of an order stands.
#[derive(Debug)]
pub struct Payment {
    pub status: PaymentStatus,
    /// Where to pay, while the payment can still be made.
    pub url: Option<String>,
}

/// The mathematical value of a `Payment`.
pub struct PaymentModel {
    pub status: PaymentStatus,
    pub url: Option<Seq<char>>,
}

impl View for Payment {
    type V = PaymentModel;

    open spec fn view(&self) -> PaymentModel {
        PaymentModel {
            status: self.status,
            url: match self.url {
                Some(url) => Some(url@),
                None => None,
            },
        }
    }
}

/// The credentials with which a restaurant's requests to the provider are
/// signed.
#[derive(Debug)]
pub struct PhonepeMerchant {
    pub id: String,
    pub key: String,
    pub key_id: String,
}

/// The credentials of one restaurant.
#[derive(Debug)]
pub struct MerchantAccount {
    pub restaurant_id: Id,
    pub merchant: PhonepeMerchant,
}

/// Whether `i` is the position of the first account of `restaurant`.
pub open spec fn is_account(accounts: Seq<MerchantAccount>, restaurant: Id, i: int) -> bool {
    &&& 0 <= i < accounts.len()
    &&& accounts[i].restaurant_id == restaurant
    &&& forall|j: int| 0 <= j < i ==> (#[trigger] accounts[j]).restaurant_id != restaurant
}

/// Whether `restaurant` has credentials.
pub open spec fn has_account(accounts: Seq<MerchantAccount>, restaurant: Id) -> bool {
    exists|i: int| 0 <= i < accounts.len() && (#[trigger] accounts[i]).restaurant_id == restaurant
}

/// The credentials of `restaurant`: those of its first account, or `None` where
/// it has no account.
pub fn get_restaurant_phonpe_details(accounts: &Vec<MerchantAccount>, restaurant: Id) -> (found:
    Option<&PhonepeMerchant>)
    ensures
        match found {
            Some(merchant) => exists|i: int|
                is_account(accounts@, restaurant, i) && *merchant == (
                #[trigger] accounts@[i]).merchant,
            None => !has_account(accounts@, restaurant),
        },
        found is Some <==> has_account(accounts@, restaurant),
{
    let mut i: usize = 0;
    while i < accounts.len()
        invariant
            i <= accounts@.len(),
            forall|j: int| 0 <= j < i ==> (#[trigger] accounts@[j]).restaurant_id != restaurant,
        decreases accounts@.len() - i,
    {
        if accounts[i].restaurant_id == restaurant {
            assert(is_account(accounts@, restaurant, i as int));
            return Some(&accounts[i].merchant);
        }
        i = i + 1;
    }
    None
}

/// What was found in an answer of the provider at the place where the caller
/// looked: the status code of a status query, or the address of the payment
/// page of a new session.
#[derive(Debug)]
pub enum ProviderReply {
    /// The HTTP status was outside the successful range.
    Rejected,
    /// The body was not JSON.
    Unreadable,
    /// Nothing stands at that place.
    Missing,
    /// What stands there is not a string.
    NotText,
    /// The string that stands there.
    Text(String),
}

/// The status that a code of the provider stands for. A code that is none of
/// the four known ones stands for nothing.
pub open spec fn code_status(code: Seq<char>) -> Option<PaymentStatus> {
    if code == "PAYMENT_SUCCESS"@ {
        Some(PaymentStatus::Paid)
    } else if code == "PAYMENT_PENDING"@ {
        Some(PaymentStatus::Pending)
    } else if code == "PAYMENT_DECLINED"@ || code == "TIMED_OUT"@ {
        Some(PaymentStatus::Failed)
    } else {
        None
    }
}

/// Reads a status code of the provider.
pub fn status_of_code(code: &str) -> (status: Option<PaymentStatus>)
    ensures
        status == code_status(code@),
{
    if str_eq(code, "PAYMENT_SUCCESS") {
        Some(PaymentStatus::Paid)
    } else if str_eq(code, "PAYMENT_PENDING") {
        Some(PaymentStatus::Pending)
    } else if str_eq(code, "PAYMENT_DECLINED") || str_eq(code, "TIMED_OUT") {
        Some(PaymentStatus::Failed)
    } else {
        None
    }
}

/// What the answer to a status query says.
pub open spec fn status_in_reply(reply: ProviderReply) -> Result<PaymentStatus, PaymentError> {
    match reply {
        ProviderReply::Rejected => Err(PaymentError::Rejected),
        ProviderReply::Unreadable => Err(PaymentError::Unreadable),
        ProviderReply::Missing => Err(PaymentError::CodeMissing),
        ProviderReply::NotText => Err(PaymentError::CodeNotText),
        ProviderReply::Text(code) => match code_status(code@) {
            Some(status) => Ok(status),
            None => Err(PaymentError::UnknownCode),
        },
    }
}

/// Reads the answer to a status query. A code that is not understood is an
/// error and never a status.
pub fn verify_payment(reply: &ProviderReply) -> (status: Result<PaymentStatus, PaymentError>)
    ensures
        status == status_in_reply(*reply),
{
    match reply {
        ProviderReply::Rejected => Err(PaymentError::Rejected),
        ProviderReply::Unreadable => Err(PaymentError::Unreadable),
        ProviderReply::Missing => Err(PaymentError::CodeMissing),
        ProviderReply::NotText => Err(PaymentError::CodeNotText),
        ProviderReply::Text(code) => match status_of_code(code.as_str()) {
            Some(status) => Ok(status),
            None => Err(PaymentError::UnknownCode),
        },
    }
}

/// The address of the payment page in the answer to a request for a new
/// session.
pub open spec fn url_in_reply(reply: ProviderReply) -> Result<Seq<char>, PaymentError> {
    match reply {
        ProviderReply::Rejected => Err(PaymentError::Rejected),
        ProviderReply::Unreadable => Err(PaymentError::Unreadable),
        ProviderReply::Missing => Err(PaymentError::UrlMissing),
        ProviderReply::NotText => Err(PaymentError::UrlMissing),
        ProviderReply::Text(url) => Ok(url@),
    }
}

/// Reads the answer to a request for a new session.
pub fn session_url(reply: ProviderReply) -> (url: Result<String, PaymentError>)
    ensures
        match url {
            Ok(text) => url_in_reply(reply) == Ok::<Seq<char>, PaymentError>(text@),
            Err(e) => url_in_reply(reply) == Err::<Seq<char>, PaymentError>(e),
        },
{
    match reply {
        ProviderReply::Rejected => Err(PaymentError::Rejected),
        ProviderReply::Unreadable => Err(PaymentError::Unreadable),
        ProviderReply::Missing => Err(PaymentError::UrlMissing),
        ProviderReply::NotText => Err(PaymentError::UrlMissing),
        ProviderReply::Text(url) => Ok(url),
    }
}

/// The provider's host.
pub const HOST: &'static str = "https://api-preprod.phonepe.com/apis/pg-sandbox";

/// How long an answer of the provider is waited for, in seconds. After that
/// the request counts as failed and may be made again.
pub const PROVIDER_TIMEOUT_SECS: u64 = 30;

/// The path at which a payment session is requested.
pub const PAY_PATH: &'static str = "/pg/v1/pay";

/// Where the provider sends the user after the payment.
pub const REDIRECT_URL: &'static str = "https://khaogalli.me/static/payments.html";

/// Where the provider reports the payment.
pub const CALLBACK_URL: &'static str = "https://webhook.site/callback-url";

/// The sixteen bytes of an identifier, the most significant first.
pub open spec fn be_bytes(id: Id) -> Seq<u8> {
    Seq::new(16, |i: int| ((id >> ((8 * (15 - i)) as u128)) & 0xff) as u8)
}

/// The form in which an identifier is sent to the provider: thirty-two
/// lower-case hex digits without hyphens.
pub open spec fn compact(id: Id) -> Seq<char> {
    hex_lower(be_bytes(id))
}

/// Formats the identifier with `Uuid::simple` of the `uuid` crate.
///
/// Trusted: the result is the identifier's sixteen bytes, the most significant
/// first, as thirty-two lower-case hex digits with nothing between them.
#[verifier::external_body]
fn uuid_simple(id: Id) -> (text: String)
    ensures
        text@ == compact(id),
{
    uuid::Uuid::from_u128(id).simple().to_string()
}

/// The path at which the status of a merchant's transaction is queried.
pub open spec fn status_path(merchant_id: Seq<char>, transaction: Seq<char>) -> Seq<char> {
    "/pg/v1/status/"@ + merchant_id + "/"@ + transaction
}

/// A signed status query, ready to be sent with GET.
#[derive(Debug)]
pub struct StatusQuery {
    /// The full address.
    pub url: String,
    /// The value of the `X-VERIFY` header.
    pub x_verify: String,
    /// The value of the `X-MERCHANT-ID` header.
    pub merchant_id: String,
}

/// Builds the status query for the payment of order `order_id`. The signature
/// covers the path and the merchant's key, in that order.
pub fn status_query(order_id: Id, merchant: &PhonepeMerchant) -> (query: StatusQuery)
    ensures
        query.url@ == HOST@ + status_path(merchant.id@, compact(order_id)),
        query.x_verify@ == xverify(
            seq![status_path(merchant.id@, compact(order_id)), merchant.key@],
            merchant.key_id@,
        ),
        query.merchant_id@ == merchant.id@,
{
    let transaction = uuid_simple(order_id);
    let mut path = String::from_str("/pg/v1/status/");
    path.append(merchant.id.as_str());
    path.append("/");
    path.append(transaction.as_str());
    let mut url = String::from_str(HOST);
    url.append(path.as_str());
    let parts: [&str; 2] = [path.as_str(), merchant.key.as_str()];
    let x_verify = calc_xverify(parts.as_slice(), merchant.key_id.as_str());
    proof {
        assert(texts(parts@) =~= seq![
            status_path(merchant.id@, compact(order_id)),
            merchant.key@,
        ]);
    }
    StatusQuery { url, x_verify, merchant_id: merchant.id.clone() }
}

/// What is sent to the provider to open a payment session. The caller encodes
/// it and hands the encoded text to `pay_request`.
#[derive(Debug)]
pub struct PayPayload {
    pub merchant_id: String,
    pub merchant_transaction_id: String,
    pub merchant_user_id: String,
    /// The total in the provider's unit, a hundredth of the order's.
    pub amount: String,
    pub redirect_url: String,
    pub redirect_mode: String,
    pub callback_url: String,
    pub payment_instrument_type: String,
}

/// Builds the payload that opens a payment session for `order` on behalf of
/// `user_id`. The amount is the order's total followed by two zeros.
pub fn pay_payload(order: &Order, user_id: Id, merchant: &PhonepeMerchant) -> (payload: PayPayload)
    ensures
        payload.merchant_id@ == merchant.id@,
        payload.merchant_transaction_id@ == compact(order.id),
        payload.merchant_user_id@ == compact(user_id),
        payload.amount@ == decimal(order.total as int) + "00"@,
        payload.redirect_url@ == REDIRECT_URL@,
        payload.redirect_mode@ == "REDIRECT"@,
        payload.callback_url@ == CALLBACK_URL@,
        payload.payment_instrument_type@ == "PAY_PAGE"@,
{
    let mut amount = String::new();
    append_decimal(&mut amount, order.total);
    amount.append("00");
    assert(amount@ =~= decimal(order.total as int) + "00"@);
    PayPayload {
        merchant_id: merchant.id.clone(),
        merchant_transaction_id: uuid_simple(order.id),
        merchant_user_id: uuid_simple(user_id),
        amount,
        redirect_url: String::from_str(REDIRECT_URL),
        redirect_mode: String::from_str("REDIRECT"),
        callback_url: String::from_str(CALLBACK_URL),
        payment_instrument_type: String::from_str("PAY_PAGE"),
    }
}

/// A signed request for a payment session, ready to be sent with POST.
#[derive(Debug)]
pub struct PayRequest {
    /// The full address.
    pub url: String,
    /// The value of the `X-VERIFY` header.
    pub x_verify: String,
    /// The encoded payload, sent as the field `request` of the body.
    pub request: String,
}

/// Signs an encoded payload. The signature covers the encoded payload, the
/// path and the merchant's key, in that order.
pub fn pay_request(request_data: String, merchant: &PhonepeMerchant) -> (request: PayRequest)
    ensures
        request.url@ == HOST@ + PAY_PATH@,
        request.x_verify@ == xverify(
            seq![request_data@, PAY_PATH@, merchant.key@],
            merchant.key_id@,
        ),
        request.request@ == request_data@,
{
    let mut url = String::from_str(HOST);
    url.append(PAY_PATH);
    let parts: [&str; 3] = [request_data.as_str(), PAY_PATH, merchant.key.as_str()];
    let x_verify = calc_xverify(parts.as_slice(), merchant.key_id.as_str());
    proof {
        assert(texts(parts@) =~= seq![request_data@, PAY_PATH@, merchant.key@]);
    }
    PayRequest { url, x_verify, request: request_data }
}

/// What has to happen next for the payment of an order.
#[derive(Clone, Copy, Debug, PartialEq, Eq, Structural)]
pub enum SessionStep {
    /// The order is no longer pending: its own status is the answer, and the
    /// provider is not asked.
    Settled(PaymentStatus),
    /// A session exists: the provider is asked for its status.
    Verify,
    /// No session exists yet: one is requested from the provider.
    Create,
}

/// The next step for an order. A failed payment is settled as `Failed`, any
/// other order that is not pending as `Paid`.
pub open spec fn next_step(order: OrderModel) -> SessionStep {
    if order.status == OrderStatus::PaymentFailed {
        SessionStep::Settled(PaymentStatus::Failed)
    } else if order.status != OrderStatus::PaymentPending {
        SessionStep::Settled(PaymentStatus::Paid)
    } else if order.payment_url is Some {
        SessionStep::Verify
    } else {
        SessionStep::Create
    }
}

/// The order after the provider reported `status` at `now`. Only a pending
/// order changes, and only on `Paid` or `Failed`.
pub open spec fn after_verification(
    order: OrderModel,
    status: PaymentStatus,
    now: int,
) -> OrderModel {
    match status {
        PaymentStatus::Paid => order.paid(now),
        PaymentStatus::Pending => order,
        PaymentStatus::Failed => order.failed(),
    }
}

/// The answer to the user after the provider reported `status`. For an order
/// that is settled already the report is ignored.
pub open spec fn verification_answer(order: OrderModel, status: PaymentStatus) -> PaymentModel {
    match next_step(order) {
        SessionStep::Settled(known) => PaymentModel { status: known, url: None },
        _ => match status {
            PaymentStatus::Paid => PaymentModel { status, url: None },
            _ => PaymentModel { status, url: order.payment_url },
        },
    }
}

/// The answer to the user after the provider opened a session at `url`. An
/// order that has a session already keeps it.
pub open spec fn session_answer(order: OrderModel, url: Seq<char>) -> PaymentModel {
    match next_step(order) {
        SessionStep::Settled(known) => PaymentModel { status: known, url: None },
        SessionStep::Verify => PaymentModel {
            status: PaymentStatus::Pending,
            url: order.payment_url,
        },
        SessionStep::Create => PaymentModel { status: PaymentStatus::Pending, url: Some(url) },
    }
}

impl Order {
    /// What has to happen next for the payment of this order.
    pub fn session_step(&self) -> (step: SessionStep)
        ensures
            step == next_step(self@),
    {
        match self.status {
            OrderStatus::PaymentFailed => SessionStep::Settled(PaymentStatus::Failed),
            OrderStatus::PaymentPending => {
                if self.payment_url.is_some() {
                    SessionStep::Verify
                } else {
                    SessionStep::Create
                }
            },
            _ => SessionStep::Settled(PaymentStatus::Paid),
        }
    }

    /// A copy of the address of the payment session.
    fn session_address(&self) -> (url: Option<String>)
        ensures
            match url {
                Some(text) => self@.payment_url == Some(text@),
                None => self@.payment_url is None,
            },
    {
        match &self.payment_url {
            Some(url) => Some(url.clone()),
            None => None,
        }
    }

    /// Applies what the provider reported at `now` and answers the user.
    ///
    /// A pending order becomes `Paid`, with `now` as its payment time, or
    /// `PaymentFailed`; on `Pending` it stays as it is and the answer repeats
    /// the address of its session. An order that is settled already is not
    /// changed, whatever the report says.
    pub fn record_verification(&mut self, status: PaymentStatus, now: i64) -> (answer: Payment)
        ensures
            final(self)@ == after_verification(old(self)@, status, now as int),
            answer@ == verification_answer(old(self)@, status),
    {
        match self.session_step() {
            SessionStep::Settled(known) => Payment { status: known, url: None },
            _ => match status {
                PaymentStatus::Paid => {
                    self.mark_paid(now);
                    Payment { status, url: None }
                },
                PaymentStatus::Pending => Payment { status, url: self.session_address() },
                PaymentStatus::Failed => {
                    let url = self.session_address();
                    self.mark_failed();
                    Payment { status, url }
                },
            },
        }
    }

    /// Stores the address of the session that the provider opened and answers
    /// the user. An order that has a session already keeps its own.
    pub fn record_session(&mut self, url: String) -> (answer: Payment)
        ensures
            final(self)@ == old(self)@.with_session(url@),
            answer@ == session_answer(old(self)@, url@),
    {
        match self.session_step() {
            SessionStep::Settled(known) => Payment { status: known, url: None },
            SessionStep::Verify => Payment {
                status: PaymentStatus::Pending,
                url: self.session_address(),
            },
            SessionStep::Create => {
                let answer = Payment { status: PaymentStatus::Pending, url: Some(url.clone()) };
                self.open_session(url);
                answer
            },
        }
    }
}

} // verus!
