use kg_rust::accounts::{
    login_user, update_pass, AccountError, PasswordCheck, Restaurant, UpdatePass,
    UpdateRestaurant, UpdateUser, User, NEW_ITEM_IMAGE_SIDE, RESTAURANT_IMAGE_SIDE,
    UPDATED_ITEM_IMAGE_SIDE, USER_IMAGE_SIDE,
};
use kg_rust::auth::AuthRestaurant;
use kg_rust::catalog::{add_item, delete_item, get_menu, update_item, AddItem, CatalogItem, UpdatedItem};

const A: AuthRestaurant = AuthRestaurant { restaurant_id: 1 };
const B: AuthRestaurant = AuthRestaurant { restaurant_id: 2 };

fn listed(id: u128, restaurant_id: u128, name: &str, price: i32) -> CatalogItem {
    CatalogItem {
        id,
        restaurant_id,
        name: name.to_string(),
        description: format!("{} of the house", name),
        price,
        available: true,
    }
}

fn catalog() -> Vec<CatalogItem> {
    vec![listed(10, 1, "Tea", 15), listed(11, 2, "Coffee", 30), listed(12, 1, "Toast", 40)]
}

fn dump(catalog: &[CatalogItem]) -> Vec<String> {
    catalog.iter().map(|i| format!("{:?}", i)).collect()
}

fn patch(id: u128) -> UpdatedItem {
    UpdatedItem { id, image: None, name: None, price: None, description: None, available: None }
}

#[test]
fn new_item_is_listed_last() {
    let mut items = catalog();
    let before = dump(&items);
    let new = AddItem {
        name: "Soup".to_string(),
        description: "Hot".to_string(),
        price: 55,
        image: Some("aGk=".to_string()),
    };
    add_item(&mut items, B, 13, &new, false);
    assert_eq!(dump(&items)[..3], before[..]);
    let last = &items[3];
    assert_eq!((last.id, last.restaurant_id), (13, 2));
    assert_eq!((last.name.as_str(), last.description.as_str()), ("Soup", "Hot"));
    assert_eq!((last.price, last.available), (55, false));
}

#[test]
fn patch_changes_only_what_it_names() {
    let mut items = catalog();
    assert!(update_item(&mut items, A, &UpdatedItem { price: Some(20), ..patch(10) }));
    assert_eq!(items[0].price, 20);
    assert_eq!(items[0].name, "Tea");
    assert_eq!(items[0].description, "Tea of the house");
    assert!(items[0].available);
    assert!(update_item(
        &mut items,
        A,
        &UpdatedItem {
            name: Some("Green Tea".to_string()),
            description: Some("Fresh".to_string()),
            available: Some(false),
            image: Some("aGk=".to_string()),
            ..patch(10)
        }
    ));
    assert_eq!(items[0].name, "Green Tea");
    assert_eq!(items[0].description, "Fresh");
    assert_eq!(items[0].price, 20);
    assert!(!items[0].available);
    assert_eq!(dump(&items)[1..], dump(&catalog())[1..]);
    // An empty patch changes nothing.
    let before = dump(&items);
    assert!(update_item(&mut items, A, &patch(12)));
    assert_eq!(dump(&items), before);
}

#[test]
fn patch_stays_within_the_restaurant() {
    let mut items = catalog();
    let before = dump(&items);
    assert!(!update_item(&mut items, B, &UpdatedItem { price: Some(1), ..patch(10) }));
    assert!(!update_item(&mut items, A, &UpdatedItem { price: Some(1), ..patch(99) }));
    assert_eq!(dump(&items), before);
}

#[test]
fn delete_stays_within_the_restaurant() {
    let mut items = catalog();
    let before = dump(&items);
    delete_item(&mut items, B, 10);
    delete_item(&mut items, A, 99);
    assert_eq!(dump(&items), before);
    delete_item(&mut items, A, 10);
    assert_eq!(dump(&items), before[1..]);
    delete_item(&mut items, A, 12);
    delete_item(&mut items, B, 11);
    assert!(items.is_empty());
    delete_item(&mut items, B, 11);
    assert!(items.is_empty());
}

#[test]
fn delete_removes_every_match() {
    let mut items = vec![
        listed(10, 1, "a", 1),
        listed(10, 1, "b", 2),
        listed(10, 2, "c", 3),
        listed(11, 1, "d", 4),
        listed(10, 1, "e", 5),
    ];
    delete_item(&mut items, A, 10);
    let names: Vec<&str> = items.iter().map(|i| i.name.as_str()).collect();
    assert_eq!(names, vec!["c", "d"]);
}

#[test]
fn menu_of_a_restaurant() {
    let items = catalog();
    let names = |restaurant: u128| -> Vec<String> {
        get_menu(&items, restaurant).iter().map(|i| i.name.clone()).collect()
    };
    assert_eq!(names(1), vec!["Tea", "Toast"]);
    assert_eq!(names(2), vec!["Coffee"]);
    assert!(names(3).is_empty());
    assert!(get_menu(&Vec::new(), 1).is_empty());
}

#[test]
fn picture_sizes() {
    assert_eq!(USER_IMAGE_SIDE, 160);
    assert_eq!(RESTAURANT_IMAGE_SIDE, 1000);
    assert_eq!(NEW_ITEM_IMAGE_SIDE, 400);
    assert_eq!(UPDATED_ITEM_IMAGE_SIDE, 70);
}

#[test]
fn password_checks() {
    assert_eq!(login_user(PasswordCheck::Match), Ok(()));
    assert_eq!(login_user(PasswordCheck::Mismatch), Err(AccountError::Unauthorized));
    assert_eq!(update_pass(PasswordCheck::Match), Ok(()));
    assert_eq!(update_pass(PasswordCheck::Mismatch), Err(AccountError::OldPasswordIncorrect));
}

#[test]
fn account_errors_in_words() {
    assert_eq!(AccountError::UsernameTaken.detail(), Some(("username", "username taken")));
    assert_eq!(AccountError::UsernameUnknown.detail(), Some(("username", "does not exist")));
    assert_eq!(
        AccountError::OldPasswordIncorrect.detail(),
        Some(("old_password", "old password is incorrect"))
    );
    assert_eq!(AccountError::Unauthorized.detail(), None);
}

#[test]
fn user_update() {
    let user = || User { id: 1, username: "ann".to_string(), password_hash: "h0".to_string() };
    let change = |username: Option<&str>| UpdateUser {
        username: username.map(|u| u.to_string()),
        update_pass: Some(UpdatePass { old_password: "o".to_string(), new_password: "n".to_string() }),
    };
    let mut u = user();
    u.update_user(change(Some("bea")), Some("h1".to_string()));
    assert_eq!((u.id, u.username.as_str(), u.password_hash.as_str()), (1, "bea", "h1"));
    let mut u = user();
    u.update_user(change(None), None);
    assert_eq!((u.id, u.username.as_str(), u.password_hash.as_str()), (1, "ann", "h0"));
    let mut u = user();
    u.update_user(change(Some("")), None);
    assert_eq!((u.username.as_str(), u.password_hash.as_str()), ("", "h0"));
}

#[test]
fn restaurant_update() {
    let mut r = Restaurant {
        id: 2,
        username: "cafe".to_string(),
        name: "Cafe".to_string(),
        password_hash: "h0".to_string(),
        open_time: 100,
        close_time: 200,
    };
    r.update_restaurant(
        UpdateRestaurant {
            username: None,
            update_pass: None,
            name: Some("Café".to_string()),
            open_time: None,
            close_time: Some(300),
        },
        None,
    );
    assert_eq!((r.id, r.username.as_str(), r.name.as_str()), (2, "cafe", "Café"));
    assert_eq!((r.password_hash.as_str(), r.open_time, r.close_time), ("h0", 100, 300));
    r.update_restaurant(
        UpdateRestaurant {
            username: Some("kafe".to_string()),
            update_pass: None,
            name: None,
            open_time: Some(50),
            close_time: None,
        },
        Some("h1".to_string()),
    );
    assert_eq!((r.username.as_str(), r.name.as_str()), ("kafe", "Café"));
    assert_eq!((r.password_hash.as_str(), r.open_time, r.close_time), ("h1", 50, 300));
}
