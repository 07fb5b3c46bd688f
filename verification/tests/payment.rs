use kg_rust::error::PaymentError;
use kg_rust::order::Order;
use kg_rust::payment::{
    get_restaurant_phonpe_details, session_url, status_of_code, verify_payment, MerchantAccount,
    PaymentStatus, PhonepeMerchant, ProviderReply, SessionStep,
};
use kg_rust::status::OrderStatus;

fn order(status: OrderStatus, url: Option<&str>) -> Order {
    let placed = match status {
        OrderStatus::PaymentPending | OrderStatus::PaymentFailed => None,
        _ => Some(1_000),
    };
    let (completed, taken) = match status {
        OrderStatus::Completed => (Some(1_300), Some(300)),
        _ => (None, None),
    };
    Order {
        id: 1,
        restaurant_id: 7,
        user_id: 9,
        items: Vec::new(),
        total: 0,
        status,
        created_at: 900,
        order_placed_time: placed,
        order_completed_time: completed,
        time_taken: taken,
        payment_url: url.map(|u| u.to_string()),
    }
}

#[test]
fn provider_codes() {
    assert_eq!(status_of_code("PAYMENT_SUCCESS"), Some(PaymentStatus::Paid));
    assert_eq!(status_of_code("PAYMENT_PENDING"), Some(PaymentStatus::Pending));
    assert_eq!(status_of_code("PAYMENT_DECLINED"), Some(PaymentStatus::Failed));
    assert_eq!(status_of_code("TIMED_OUT"), Some(PaymentStatus::Failed));
    assert_eq!(status_of_code("PAYMENT_ERROR"), None);
    assert_eq!(status_of_code("payment_success"), None);
    assert_eq!(status_of_code("PAID"), None);
    assert_eq!(status_of_code(""), None);
}

#[test]
fn status_reply_is_read_closed() {
    let text = |code: &str| ProviderReply::Text(code.to_string());
    assert_eq!(verify_payment(&text("PAYMENT_SUCCESS")), Ok(PaymentStatus::Paid));
    assert_eq!(verify_payment(&text("PAYMENT_PENDING")), Ok(PaymentStatus::Pending));
    assert_eq!(verify_payment(&text("PAYMENT_DECLINED")), Ok(PaymentStatus::Failed));
    assert_eq!(verify_payment(&text("TIMED_OUT")), Ok(PaymentStatus::Failed));
    assert_eq!(verify_payment(&text("SOMETHING_NEW")), Err(PaymentError::UnknownCode));
    assert_eq!(verify_payment(&ProviderReply::Rejected), Err(PaymentError::Rejected));
    assert_eq!(verify_payment(&ProviderReply::Unreadable), Err(PaymentError::Unreadable));
    assert_eq!(verify_payment(&ProviderReply::Missing), Err(PaymentError::CodeMissing));
    assert_eq!(verify_payment(&ProviderReply::NotText), Err(PaymentError::CodeNotText));
}

#[test]
fn session_reply() {
    assert_eq!(
        session_url(ProviderReply::Text("https://pay.example/s/1".to_string())),
        Ok("https://pay.example/s/1".to_string())
    );
    assert_eq!(session_url(ProviderReply::Missing), Err(PaymentError::UrlMissing));
    assert_eq!(session_url(ProviderReply::NotText), Err(PaymentError::UrlMissing));
    assert_eq!(session_url(ProviderReply::Rejected), Err(PaymentError::Rejected));
    assert_eq!(session_url(ProviderReply::Unreadable), Err(PaymentError::Unreadable));
}

#[test]
fn session_steps() {
    assert_eq!(order(OrderStatus::PaymentPending, None).session_step(), SessionStep::Create);
    assert_eq!(order(OrderStatus::PaymentPending, Some("u")).session_step(), SessionStep::Verify);
    assert_eq!(
        order(OrderStatus::PaymentFailed, Some("u")).session_step(),
        SessionStep::Settled(PaymentStatus::Failed)
    );
    for status in [OrderStatus::Paid, OrderStatus::Completed, OrderStatus::Cancelled] {
        assert_eq!(
            order(status, Some("u")).session_step(),
            SessionStep::Settled(PaymentStatus::Paid)
        );
    }
}

#[test]
fn verification_paid_sets_payment_time() {
    let mut o = order(OrderStatus::PaymentPending, Some("https://pay/1"));
    let answer = o.record_verification(PaymentStatus::Paid, 1_234);
    assert_eq!(answer.status, PaymentStatus::Paid);
    assert_eq!(answer.url, None);
    assert_eq!(o.status, OrderStatus::Paid);
    assert_eq!(o.order_placed_time, Some(1_234));
    assert_eq!(o.payment_url.as_deref(), Some("https://pay/1"));
}

#[test]
fn verification_failed_is_terminal() {
    let mut o = order(OrderStatus::PaymentPending, Some("https://pay/1"));
    let answer = o.record_verification(PaymentStatus::Failed, 1_234);
    assert_eq!(answer.status, PaymentStatus::Failed);
    assert_eq!(answer.url.as_deref(), Some("https://pay/1"));
    assert_eq!(o.status, OrderStatus::PaymentFailed);
    assert_eq!(o.order_placed_time, None);
    // A later report of success changes nothing.
    let again = o.record_verification(PaymentStatus::Paid, 2_000);
    assert_eq!(again.status, PaymentStatus::Failed);
    assert_eq!(again.url, None);
    assert_eq!(o.status, OrderStatus::PaymentFailed);
    assert_eq!(o.order_placed_time, None);
}

#[test]
fn verification_pending_repeats_the_address() {
    let mut o = order(OrderStatus::PaymentPending, Some("https://pay/1"));
    for now in [10, 11] {
        let answer = o.record_verification(PaymentStatus::Pending, now);
        assert_eq!(answer.status, PaymentStatus::Pending);
        assert_eq!(answer.url.as_deref(), Some("https://pay/1"));
        assert_eq!(o.status, OrderStatus::PaymentPending);
        assert_eq!(o.payment_url.as_deref(), Some("https://pay/1"));
        assert_eq!(o.session_step(), SessionStep::Verify);
    }
}

#[test]
fn verification_of_settled_order_is_ignored() {
    let mut o = order(OrderStatus::Paid, Some("https://pay/1"));
    let answer = o.record_verification(PaymentStatus::Failed, 5_000);
    assert_eq!(answer.status, PaymentStatus::Paid);
    assert_eq!(answer.url, None);
    assert_eq!(o.status, OrderStatus::Paid);
    assert_eq!(o.order_placed_time, Some(1_000));
}

#[test]
fn session_is_opened_once() {
    let mut o = order(OrderStatus::PaymentPending, None);
    let first = o.record_session("https://pay/1".to_string());
    assert_eq!(first.status, PaymentStatus::Pending);
    assert_eq!(first.url.as_deref(), Some("https://pay/1"));
    assert_eq!(o.payment_url.as_deref(), Some("https://pay/1"));
    let second = o.record_session("https://pay/2".to_string());
    assert_eq!(second.status, PaymentStatus::Pending);
    assert_eq!(second.url.as_deref(), Some("https://pay/1"));
    assert_eq!(o.payment_url.as_deref(), Some("https://pay/1"));
}

#[test]
fn session_for_settled_order_is_dropped() {
    let mut o = order(OrderStatus::Cancelled, None);
    let answer = o.record_session("https://pay/1".to_string());
    assert_eq!(answer.status, PaymentStatus::Paid);
    assert_eq!(answer.url, None);
    assert_eq!(o.payment_url, None);
    assert!(!order(OrderStatus::PaymentFailed, None).open_session("x".to_string()));
}

#[test]
fn merchant_lookup() {
    let account = |restaurant_id: u128, id: &str| MerchantAccount {
        restaurant_id,
        merchant: PhonepeMerchant {
            id: id.to_string(),
            key: "k".to_string(),
            key_id: "1".to_string(),
        },
    };
    let accounts = vec![account(1, "A"), account(2, "B"), account(1, "C")];
    assert_eq!(get_restaurant_phonpe_details(&accounts, 1).map(|m| m.id.as_str()), Some("A"));
    assert_eq!(get_restaurant_phonpe_details(&accounts, 2).map(|m| m.id.as_str()), Some("B"));
    assert!(get_restaurant_phonpe_details(&accounts, 3).is_none());
    assert!(get_restaurant_phonpe_details(&Vec::new(), 1).is_none());
}
