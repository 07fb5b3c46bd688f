use kg_rust::auth::{
    bearer_token, session_expiry, Auth, AuthRestaurant, AuthUser, MaybeAuthRestaurant,
    MaybeAuthUser, SESSION_SECS,
};
use kg_rust::catalog::AddItem;
use kg_rust::config::{Config, DEFAULT_DB_MAX_CONNECTIONS, DEFAULT_DB_MIN_CONNECTIONS};
use kg_rust::notification::{Notification, NotificationRestaurant, NotificationUser};
use kg_rust::text::{bytes_eq, str_eq};

#[test]
fn bearer_scheme() {
    assert_eq!(bearer_token(b"Bearer abc.def.ghi"), Some(&b"abc.def.ghi"[..]));
    assert_eq!(bearer_token(b"Bearer "), Some(&b""[..]));
    assert_eq!(bearer_token(b"Bearer  x"), Some(&b" x"[..]));
    assert_eq!(bearer_token(b"Bearer"), None);
    assert_eq!(bearer_token(b"bearer abc"), None);
    assert_eq!(bearer_token(b"Basic abc"), None);
    assert_eq!(bearer_token(b"BearerX abc"), None);
    assert_eq!(bearer_token(b""), None);
}

#[test]
fn sessions_last_a_week() {
    assert_eq!(SESSION_SECS, 7 * 24 * 60 * 60);
    assert_eq!(session_expiry(0), Some(604_800));
    assert_eq!(session_expiry(1_700_000_000), Some(1_700_604_800));
    assert_eq!(session_expiry(-604_800), Some(0));
    assert_eq!(session_expiry(i64::MAX - 604_800), Some(i64::MAX));
    assert_eq!(session_expiry(i64::MAX - 604_799), None);
}

#[test]
fn claims_count_until_they_expire() {
    assert_eq!(AuthUser::from_authorization(7, 1_000, 999), Some(AuthUser { user_id: 7 }));
    assert_eq!(AuthUser::from_authorization(7, 1_000, 1_000), Some(AuthUser { user_id: 7 }));
    assert_eq!(AuthUser::from_authorization(7, 1_000, 1_001), None);
    assert_eq!(
        AuthRestaurant::from_authorization(8, 1_000, 1_000),
        Some(AuthRestaurant { restaurant_id: 8 })
    );
    assert_eq!(AuthRestaurant::from_authorization(8, 1_000, 1_001), None);
}

#[test]
fn user_claim_wins() {
    let user = AuthUser { user_id: 1 };
    let restaurant = AuthRestaurant { restaurant_id: 2 };
    assert_eq!(Auth::resolve(Some(user), Some(restaurant)), Some(Auth::User(user)));
    assert_eq!(Auth::resolve(Some(user), None), Some(Auth::User(user)));
    assert_eq!(Auth::resolve(None, Some(restaurant)), Some(Auth::Restaurant(restaurant)));
    assert_eq!(Auth::resolve(None, None), None);
}

#[test]
fn optional_actors() {
    assert_eq!(MaybeAuthUser(Some(AuthUser { user_id: 5 })).restaurant_id(), Some(5));
    assert_eq!(MaybeAuthUser(None).restaurant_id(), None);
    assert_eq!(MaybeAuthRestaurant(Some(AuthRestaurant { restaurant_id: 6 })).user_id(), Some(6));
    assert_eq!(MaybeAuthRestaurant(None).user_id(), None);
}

#[test]
fn notices() {
    let done = Notification::order_completed(2, 1);
    assert_eq!((done.sender_id, done.recipient_id), (Some(2), Some(1)));
    assert_eq!(done.title, "Order Completed");
    let gone = Notification::order_cancelled(2, 1);
    assert_eq!(gone.title, "Order Cancelled");
    assert_eq!(gone.ttl_minutes, 1440);
    let all = Notification::send_notification(2, "Lunch".to_string(), "Half price".to_string(), 30);
    assert_eq!((all.sender_id, all.recipient_id), (Some(2), None));
    assert_eq!((all.title.as_str(), all.body.as_str(), all.ttl_minutes), ("Lunch", "Half price", 30));
}

#[test]
fn who_sees_a_notice() {
    let to_one = Notification::order_completed(2, 1);
    let to_all = Notification::send_notification(2, String::new(), String::new(), 5);
    let unsigned = Notification {
        sender_id: None,
        recipient_id: None,
        title: String::new(),
        body: String::new(),
        ttl_minutes: 5,
    };
    assert!(to_one.is_shown_to_user(1));
    assert!(!to_one.is_shown_to_user(3));
    assert!(to_all.is_shown_to_user(1) && to_all.is_shown_to_user(3));
    assert!(!unsigned.is_shown_to_user(1));
    assert!(to_all.is_listed_by_restaurant(2));
    assert!(!to_all.is_listed_by_restaurant(4));
    assert!(!to_one.is_listed_by_restaurant(2));
    assert!(!unsigned.is_listed_by_restaurant(2));
}

#[test]
fn plain_records() {
    let seen = NotificationRestaurant {
        id: 1,
        title: "t".to_string(),
        body: "b".to_string(),
        ttl_minutes: 3,
        created_at: 9,
    };
    assert_eq!((seen.id, seen.ttl_minutes, seen.created_at), (1, 3, 9));
    let shown = NotificationUser {
        id: 1,
        title: "t".to_string(),
        body: "b".to_string(),
        restaurant_name: "r".to_string(),
        restaurant_id: 2,
        ttl_minutes: 3,
        created_at: 9,
    };
    assert_eq!(shown.restaurant_id, 2);
    let item = AddItem {
        name: "Tea".to_string(),
        description: "Hot".to_string(),
        price: 15,
        image: None,
    };
    assert_eq!(item.price, 15);
}

#[test]
fn config_defaults() {
    let config = Config::new("postgres://db".to_string(), "key".to_string());
    assert_eq!(config.database_url, "postgres://db");
    assert_eq!(config.hmac_key, "key");
    assert_eq!(config.db_max_connections, 10);
    assert_eq!(config.db_min_connections, 0);
    assert_eq!(DEFAULT_DB_MAX_CONNECTIONS, 10);
    assert_eq!(DEFAULT_DB_MIN_CONNECTIONS, 0);
}

#[test]
fn text_equality() {
    assert!(str_eq("", ""));
    assert!(str_eq("päid", "päid"));
    assert!(!str_eq("paid", "Paid"));
    assert!(!str_eq("paid", "paid "));
    assert!(bytes_eq(&[1, 2, 3], &[1, 2, 3]));
    assert!(!bytes_eq(&[1, 2, 3], &[1, 2, 4]));
    assert!(!bytes_eq(&[1, 2, 3], &[1, 2]));
}
