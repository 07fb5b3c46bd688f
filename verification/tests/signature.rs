use kg_rust::payment::{
    pay_payload, pay_request, status_query, PhonepeMerchant, CALLBACK_URL, HOST, REDIRECT_URL,
};
use kg_rust::order::Order;
use kg_rust::signature::{calc_xverify, token_from_digest};
use kg_rust::status::OrderStatus;
use sha2::Digest;

fn merchant() -> PhonepeMerchant {
    PhonepeMerchant {
        id: "MERCHANT1".to_string(),
        key: "secret-key".to_string(),
        key_id: "1".to_string(),
    }
}

fn order_with_total(id: u128, total: i32) -> Order {
    Order {
        id,
        restaurant_id: 7,
        user_id: 9,
        items: Vec::new(),
        total,
        status: OrderStatus::PaymentPending,
        created_at: 0,
        order_placed_time: None,
        order_completed_time: None,
        time_taken: None,
        payment_url: None,
    }
}

#[test]
fn xverify_of_known_digest() {
    // SHA-256 of "abc", whether it is signed as one part or as three.
    let expected = "ba7816bf8f01cfea414140de5dae2223b00361a396177a9cb410ff61f20015ad###1";
    assert_eq!(calc_xverify(&["abc"], "1"), expected);
    assert_eq!(calc_xverify(&["a", "b", "c"], "1"), expected);
    assert_eq!(calc_xverify(&["ab", "", "c"], "1"), expected);
}

#[test]
fn xverify_of_nothing() {
    assert_eq!(
        calc_xverify(&[], "7"),
        "e3b0c44298fc1c149afbf4c8996fb92427ae41e4649b934ca495991b7852b855###7"
    );
}

#[test]
fn xverify_depends_on_order_of_parts() {
    assert_ne!(calc_xverify(&["a", "b"], "1"), calc_xverify(&["b", "a"], "1"));
}

#[test]
fn xverify_signs_utf8_bytes() {
    let digest = sha2::Sha256::digest("päy/ löad".as_bytes());
    let expected = format!("{}###k", hex::encode(digest));
    assert_eq!(calc_xverify(&["päy", "/ löad"], "k"), expected);
}

#[test]
fn token_is_hex_then_marker_then_index() {
    assert_eq!(token_from_digest(&[0x00, 0x0f, 0xa0, 0xff], "12"), "000fa0ff###12");
    assert_eq!(token_from_digest(&[], ""), "###");
    assert_eq!(token_from_digest(&[1, 2, 3, 15, 16], "x"), "0102030f10###x");
}

#[test]
fn identifiers_are_sent_as_thirty_two_hex_digits() {
    let sent = |id: u128| pay_payload(&order_with_total(id, 0), id, &merchant());
    assert_eq!(
        sent(0xa1a2a3a4b1b2c1c2d1d2d3d4d5d6d7d8).merchant_transaction_id,
        "a1a2a3a4b1b2c1c2d1d2d3d4d5d6d7d8"
    );
    assert_eq!(sent(0).merchant_transaction_id, "00000000000000000000000000000000");
    assert_eq!(sent(255).merchant_user_id, "000000000000000000000000000000ff");
    assert_eq!(sent(u128::MAX).merchant_user_id, "ffffffffffffffffffffffffffffffff");
}

#[test]
fn status_query_is_signed_over_path_and_key() {
    let query = status_query(0xa1a2a3a4b1b2c1c2d1d2d3d4d5d6d7d8, &merchant());
    let path = "/pg/v1/status/MERCHANT1/a1a2a3a4b1b2c1c2d1d2d3d4d5d6d7d8";
    assert_eq!(query.url, format!("{}{}", HOST, path));
    assert_eq!(query.url, "https://api-preprod.phonepe.com/apis/pg-sandbox/pg/v1/status/MERCHANT1/a1a2a3a4b1b2c1c2d1d2d3d4d5d6d7d8");
    assert_eq!(query.merchant_id, "MERCHANT1");
    let digest = sha2::Sha256::digest(format!("{}secret-key", path).as_bytes());
    assert_eq!(query.x_verify, format!("{}###1", hex::encode(digest)));
}

#[test]
fn pay_payload_fields() {
    let payload = pay_payload(&order_with_total(0x10, 500), 0x20, &merchant());
    assert_eq!(payload.merchant_id, "MERCHANT1");
    assert_eq!(payload.merchant_transaction_id, "00000000000000000000000000000010");
    assert_eq!(payload.merchant_user_id, "00000000000000000000000000000020");
    assert_eq!(payload.amount, "50000");
    assert_eq!(payload.redirect_url, REDIRECT_URL);
    assert_eq!(payload.redirect_url, "https://khaogalli.me/static/payments.html");
    assert_eq!(payload.redirect_mode, "REDIRECT");
    assert_eq!(payload.callback_url, CALLBACK_URL);
    assert_eq!(payload.callback_url, "https://webhook.site/callback-url");
    assert_eq!(payload.payment_instrument_type, "PAY_PAGE");
}

#[test]
fn pay_payload_amount_is_total_with_two_zeros() {
    let amount = |total: i32| pay_payload(&order_with_total(1, total), 2, &merchant()).amount;
    assert_eq!(amount(0), "000");
    assert_eq!(amount(7), "700");
    assert_eq!(amount(10), "1000");
    assert_eq!(amount(1234567890), "123456789000");
    assert_eq!(amount(i32::MAX), "214748364700");
    assert_eq!(amount(-5), "-500");
    assert_eq!(amount(i32::MIN), "-214748364800");
}

#[test]
fn pay_request_is_signed_over_payload_path_and_key() {
    let request = pay_request("eyJhIjoxfQ".to_string(), &merchant());
    assert_eq!(request.url, "https://api-preprod.phonepe.com/apis/pg-sandbox/pg/v1/pay");
    assert_eq!(request.request, "eyJhIjoxfQ");
    let digest = sha2::Sha256::digest(b"eyJhIjoxfQ/pg/v1/paysecret-key");
    assert_eq!(request.x_verify, format!("{}###1", hex::encode(digest)));
}
