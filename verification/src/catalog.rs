//! The catalog of items that can be ordered, and how requested lines are
//! resolved against it.

use crate::auth::AuthRestaurant;
use crate::error::OrderError;
use crate::order::{Id, Item, ItemModel, item_models};
use vstd::prelude::*;

verus! {

/// An item as the catalog lists it now.
#[derive(Debug)]
pub struct CatalogItem {
    pub id: Id,
    pub restaurant_id: Id,
    pub name: String,
    pub description: String,
    pub price: i32,
    pub available: bool,
}

/// The mathematical value of a catalog item.
pub struct CatalogItemModel {
    pub id: Id,
    pub restaurant_id: Id,
    pub name: Seq<char>,
    pub description: Seq<char>,
    pub price: int,
    pub available: bool,
}

impl View for CatalogItem {
    type V = CatalogItemModel;

    open spec fn view(&self) -> CatalogItemModel {
        CatalogItemModel {
            id: self.id,
            restaurant_id: self.restaurant_id,
            name: self.name@,
            description: self.description@,
            price: self.price as int,
            available: self.available,
        }
    }
}

/// The values of a list of catalog items, in order.
pub open spec fn catalog_models(catalog: Seq<CatalogItem>) -> Seq<CatalogItemModel> {
    Seq::new(catalog.len(), |i: int| catalog[i]@)
}

/// The values of a list of borrowed catalog items, in order.
pub open spec fn menu_models(menu: Seq<&CatalogItem>) -> Seq<CatalogItemModel> {
    Seq::new(menu.len(), |i: int| menu[i]@)
}

/// What a restaurant sends to change an item that it lists. A field that is
/// `None` stays as it is.
#[derive(Debug)]
pub struct UpdatedItem {
    pub id: Id,
    /// The new picture, base64 encoded.
    pub image: Option<String>,
    pub name: Option<String>,
    pub price: Option<i32>,
    pub description: Option<String>,
    pub available: Option<bool>,
}

/// What a restaurant sends to list a new item.
#[derive(Debug)]
pub struct AddItem {
    pub name: String,
    pub description: String,
    pub price: i32,
    /// The picture, base64 encoded.
    pub image: Option<String>,
}

/// One requested line: which item, and how many of it.
#[derive(Clone, Copy, Debug, PartialEq, Eq, Structural)]
pub struct NewItem {
    pub id: Id,
    pub quantity: i32,
}

/// Whether the catalog lists an item under `id`.
pub open spec fn lists(catalog: Seq<CatalogItem>, id: Id) -> bool {
    exists|i: int| 0 <= i < catalog.len() && (#[trigger] catalog[i]).id == id
}

/// Whether `i` is the position of the first item listed under `id`.
pub open spec fn is_listing(catalog: Seq<CatalogItem>, id: Id, i: int) -> bool {
    &&& 0 <= i < catalog.len()
    &&& catalog[i].id == id
    &&& forall|j: int| 0 <= j < i ==> (#[trigger] catalog[j]).id != id
}

/// The position of the first item listed under `id`.
pub open spec fn listing(catalog: Seq<CatalogItem>, id: Id) -> int {
    choose|i: int| is_listing(catalog, id, i)
}

/// The line item that a request for `line` gives: the name and price that the
/// catalog holds now, and the requested quantity.
pub open spec fn snapshot(catalog: Seq<CatalogItem>, line: NewItem) -> ItemModel {
    let listed = catalog[listing(catalog, line.id)];
    ItemModel { name: listed.name@, price: listed.price as int, quantity: line.quantity as int }
}

/// The line items that a list of requests gives, in order.
pub open spec fn snapshots(catalog: Seq<CatalogItem>, requested: Seq<NewItem>) -> Seq<ItemModel> {
    Seq::new(requested.len(), |i: int| snapshot(catalog, requested[i]))
}

/// What is wrong with the requested line at position `k`, if anything: its
/// quantity is checked first, then its item.
pub open spec fn fault_at(catalog: Seq<CatalogItem>, requested: Seq<NewItem>, k: int) -> Option<
    OrderError,
> {
    if requested[k].quantity <= 0 {
        Some(OrderError::InvalidQuantity(k as usize))
    } else if !lists(catalog, requested[k].id) {
        Some(OrderError::ItemNotFound(k as usize))
    } else {
        None
    }
}

/// Whether the first `k` requested lines are all in order.
pub open spec fn clean_before(catalog: Seq<CatalogItem>, requested: Seq<NewItem>, k: int) -> bool {
    forall|j: int| 0 <= j < k ==> (#[trigger] fault_at(catalog, requested, j)) is None
}

/// Whether `fault` is what is wrong with the first requested line that is not
/// in order.
pub open spec fn is_first_fault(
    catalog: Seq<CatalogItem>,
    requested: Seq<NewItem>,
    fault: OrderError,
) -> bool {
    exists|k: int|
        0 <= k < requested.len() && clean_before(catalog, requested, k) && #[trigger] fault_at(
            catalog,
            requested,
            k,
        ) == Some(fault)
}

/// The first listing of an identifier is unique.
pub proof fn lemma_listing_unique(catalog: Seq<CatalogItem>, id: Id, i: int)
    requires
        is_listing(catalog, id, i),
    ensures
        listing(catalog, id) == i,
        lists(catalog, id),
{
    let j = listing(catalog, id);
    assert(is_listing(catalog, id, j));
    if j < i {
        assert(catalog[j].id != id);
    }
    if i < j {
        assert(catalog[i].id != id);
    }
}

/// Looks an item up by its identifier. The result is the position of the first
/// item listed under `id`, or `None` where the catalog lists none.
pub fn find_item(catalog: &Vec<CatalogItem>, id: Id) -> (found: Option<usize>)
    ensures
        match found {
            Some(i) => is_listing(catalog@, id, i as int),
            None => !lists(catalog@, id),
        },
{
    let mut i: usize = 0;
    while i < catalog.len()
        invariant
            i <= catalog@.len(),
            forall|j: int| 0 <= j < i ==> (#[trigger] catalog@[j]).id != id,
        decreases catalog@.len() - i,
    {
        if catalog[i].id == id {
            return Some(i);
        }
        i = i + 1;
    }
    None
}

/// Resolves the requested lines against the catalog, all or none.
///
/// Where every line has a positive quantity and names a listed item, the
/// result is one line item per request, in order, with the name and price that
/// the catalog holds at this moment. Otherwise the result is the fault of the
/// first line that is not in order.
pub fn resolve_items(catalog: &Vec<CatalogItem>, requested: &Vec<NewItem>) -> (resolved: Result<
    Vec<Item>,
    OrderError,
>)
    ensures
        match resolved {
            Ok(items) => {
                &&& clean_before(catalog@, requested@, requested@.len() as int)
                &&& item_models(items@) == snapshots(catalog@, requested@)
            },
            Err(fault) => is_first_fault(catalog@, requested@, fault),
        },
{
    let mut items: Vec<Item> = Vec::new();
    let mut k: usize = 0;
    while k < requested.len()
        invariant
            k <= requested@.len(),
            clean_before(catalog@, requested@, k as int),
            items@.len() == k,
            forall|j: int|
                0 <= j < k ==> (#[trigger] items@[j])@ == snapshot(catalog@, requested@[j]),
        decreases requested@.len() - k,
    {
        let line = requested[k];
        if line.quantity <= 0 {
            assert(fault_at(catalog@, requested@, k as int) == Some(
                OrderError::InvalidQuantity(k),
            ));
            return Err(OrderError::InvalidQuantity(k));
        }
        match find_item(catalog, line.id) {
            None => {
                assert(fault_at(catalog@, requested@, k as int) == Some(
                    OrderError::ItemNotFound(k),
                ));
                return Err(OrderError::ItemNotFound(k));
            },
            Some(i) => {
                proof {
                    lemma_listing_unique(catalog@, line.id, i as int);
                    assert(fault_at(catalog@, requested@, k as int) is None);
                }
                let listed = &catalog[i];
                items.push(
                    Item {
                        name: listed.name.clone(),
                        price: listed.price,
                        quantity: line.quantity,
                    },
                );
            },
        }
        k = k + 1;
    }
    assert(item_models(items@) =~= snapshots(catalog@, requested@));
    Ok(items)
}

/// Whether the item is the one that `restaurant` lists under `id`.
pub open spec fn is_target(item: CatalogItemModel, restaurant: Id, id: Id) -> bool {
    item.id == id && item.restaurant_id == restaurant
}

/// The items that stay when `restaurant` removes what it lists under `id`.
pub open spec fn kept_after_delete(restaurant: Id, id: Id) -> spec_fn(CatalogItemModel) -> bool {
    |item: CatalogItemModel| !is_target(item, restaurant, id)
}

/// The items that `restaurant` lists.
pub open spec fn listed_by_restaurant(restaurant: Id) -> spec_fn(CatalogItemModel) -> bool {
    |item: CatalogItemModel| item.restaurant_id == restaurant
}

/// The item with the changes of `patch` applied.
pub open spec fn patched(item: CatalogItemModel, patch: UpdatedItem) -> CatalogItemModel {
    CatalogItemModel {
        name: match patch.name {
            Some(name) => name@,
            None => item.name,
        },
        price: match patch.price {
            Some(price) => price as int,
            None => item.price,
        },
        description: match patch.description {
            Some(description) => description@,
            None => item.description,
        },
        available: match patch.available {
            Some(available) => available,
            None => item.available,
        },
        ..item
    }
}

/// The item under which `restaurant` lists what it sent as `item`.
pub open spec fn new_listing(
    restaurant: Id,
    id: Id,
    item: AddItem,
    available: bool,
) -> CatalogItemModel {
    CatalogItemModel {
        id,
        restaurant_id: restaurant,
        name: item.name@,
        description: item.description@,
        price: item.price as int,
        available,
    }
}

/// Lists a new item of `restaurant` under `id`, after all that are listed.
/// Whether it can be ordered at once is the caller's to say.
pub fn add_item(
    catalog: &mut Vec<CatalogItem>,
    restaurant: AuthRestaurant,
    id: Id,
    item: &AddItem,
    available: bool,
)
    ensures
        catalog_models(final(catalog)@) == catalog_models(old(catalog)@).push(
            new_listing(restaurant.restaurant_id, id, *item, available),
        ),
{
    let ghost before = catalog_models(catalog@);
    catalog.push(
        CatalogItem {
            id,
            restaurant_id: restaurant.restaurant_id,
            name: item.name.clone(),
            description: item.description.clone(),
            price: item.price,
            available,
        },
    );
    assert(catalog_models(catalog@) =~= before.push(
        new_listing(restaurant.restaurant_id, id, *item, available),
    ));
}

/// Applies `patch` to what `restaurant` lists under the patch's identifier.
/// Items of other restaurants, and items under other identifiers, stay as
/// they are. Returns whether an item was changed.
pub fn update_item(
    catalog: &mut Vec<CatalogItem>,
    restaurant: AuthRestaurant,
    patch: &UpdatedItem,
) -> (changed: bool)
    ensures
        final(catalog)@.len() == old(catalog)@.len(),
        forall|i: int|
            0 <= i < old(catalog)@.len() ==> (#[trigger] final(catalog)@[i])@ == (if is_target(
                old(catalog)@[i]@,
                restaurant.restaurant_id,
                patch.id,
            ) {
                patched(old(catalog)@[i]@, *patch)
            } else {
                old(catalog)@[i]@
            }),
        changed == exists|i: int|
            0 <= i < old(catalog)@.len() && is_target(
                (#[trigger] old(catalog)@[i])@,
                restaurant.restaurant_id,
                patch.id,
            ),
{
    let mut changed = false;
    let mut k: usize = 0;
    while k < catalog.len()
        invariant
            k <= catalog@.len(),
            catalog@.len() == old(catalog)@.len(),
            forall|i: int|
                0 <= i < k ==> (#[trigger] catalog@[i])@ == (if is_target(
                    old(catalog)@[i]@,
                    restaurant.restaurant_id,
                    patch.id,
                ) {
                    patched(old(catalog)@[i]@, *patch)
                } else {
                    old(catalog)@[i]@
                }),
            forall|i: int| k <= i < catalog@.len() ==> (#[trigger] catalog@[i]) == old(catalog)@[i],
            changed == exists|i: int|
                0 <= i < k && is_target(
                    (#[trigger] old(catalog)@[i])@,
                    restaurant.restaurant_id,
                    patch.id,
                ),
        decreases catalog@.len() - k,
    {
        if catalog[k].id == patch.id && catalog[k].restaurant_id == restaurant.restaurant_id {
            let ghost before = catalog@;
            let mut item = CatalogItem {
                id: catalog[k].id,
                restaurant_id: catalog[k].restaurant_id,
                name: match &patch.name {
                    Some(name) => name.clone(),
                    None => catalog[k].name.clone(),
                },
                description: match &patch.description {
                    Some(description) => description.clone(),
                    None => catalog[k].description.clone(),
                },
                price: match patch.price {
                    Some(price) => price,
                    None => catalog[k].price,
                },
                available: match patch.available {
                    Some(available) => available,
                    None => catalog[k].available,
                },
            };
            assert(item@ == patched(before[k as int]@, *patch));
            catalog.set(k, item);
            changed = true;
            assert(is_target(old(catalog)@[k as int]@, restaurant.restaurant_id, patch.id));
        }
        k = k + 1;
    }
    changed
}

/// The items that `restaurant` lists, in the order in which they were listed.
pub fn get_menu(catalog: &Vec<CatalogItem>, restaurant: Id) -> (menu: Vec<&CatalogItem>)
    ensures
        menu_models(menu@) == catalog_models(catalog@).filter(listed_by_restaurant(restaurant)),
{
    let ghost all = catalog_models(catalog@);
    let ghost listed = listed_by_restaurant(restaurant);
    let mut menu: Vec<&CatalogItem> = Vec::new();
    let mut k: usize = 0;
    proof {
        reveal(Seq::filter);
        assert(all.take(0).filter(listed) =~= Seq::<CatalogItemModel>::empty());
        assert(menu_models(menu@) =~= Seq::<CatalogItemModel>::empty());
    }
    while k < catalog.len()
        invariant
            k <= catalog@.len(),
            all == catalog_models(catalog@),
            listed == listed_by_restaurant(restaurant),
            menu_models(menu@) == all.take(k as int).filter(listed),
        decreases catalog@.len() - k,
    {
        let item = &catalog[k];
        let ghost before = menu_models(menu@);
        proof {
            reveal(Seq::filter);
            assert(all.take(k + 1).drop_last() =~= all.take(k as int));
            assert(all.take(k + 1).last() == item@);
        }
        if item.restaurant_id == restaurant {
            menu.push(item);
            assert(menu_models(menu@) =~= before.push(item@));
        }
        k = k + 1;
    }
    assert(all.take(k as int) =~= all);
    menu
}

/// Removes what `restaurant` lists under `id`. Items of other restaurants, and
/// items under other identifiers, stay, in their order.
pub fn delete_item(catalog: &mut Vec<CatalogItem>, restaurant: AuthRestaurant, id: Id)
    ensures
        catalog_models(final(catalog)@) == catalog_models(old(catalog)@).filter(
            kept_after_delete(restaurant.restaurant_id, id),
        ),
{
    let ghost all = catalog_models(catalog@);
    let ghost kept = kept_after_delete(restaurant.restaurant_id, id);
    let ghost mut seen: int = 0;
    let mut k: usize = 0;
    proof {
        reveal(Seq::filter);
        assert(catalog_models(catalog@).take(0) =~= all.take(0).filter(kept));
        assert(catalog_models(catalog@).skip(0) =~= all.skip(0));
    }
    while k < catalog.len()
        invariant
            k <= catalog@.len(),
            0 <= seen <= all.len(),
            kept == kept_after_delete(restaurant.restaurant_id, id),
            catalog_models(catalog@).take(k as int) == all.take(seen).filter(kept),
            catalog_models(catalog@).skip(k as int) == all.skip(seen),
        decreases catalog@.len() - k,
    {
        let ghost before = catalog_models(catalog@);
        proof {
            reveal(Seq::filter);
            assert(before.skip(k as int)[0] == all.skip(seen)[0]);
            assert(before.skip(k as int).len() == all.skip(seen).len());
            assert(all.take(seen + 1).drop_last() =~= all.take(seen));
            assert(all.take(seen + 1).last() == before[k as int]);
        }
        if catalog[k].id == id && catalog[k].restaurant_id == restaurant.restaurant_id {
            catalog.remove(k);
            proof {
                let after = catalog_models(catalog@);
                assert(after.take(k as int) =~= before.take(k as int));
                assert(after.skip(k as int) =~= before.skip(k as int).skip(1));
                assert(all.skip(seen).skip(1) =~= all.skip(seen + 1));
            }
        } else {
            proof {
                assert(before.take(k + 1) =~= before.take(k as int).push(before[k as int]));
                assert(before.skip(k + 1) =~= before.skip(k as int).skip(1));
                assert(all.skip(seen).skip(1) =~= all.skip(seen + 1));
            }
            k = k + 1;
        }
        proof {
            seen = seen + 1;
        }
    }
    proof {
        assert(catalog_models(catalog@).skip(k as int).len() == 0);
        assert(all.take(seen) =~= all);
        assert(catalog_models(catalog@).take(k as int) =~= catalog_models(catalog@));
    }
}

} // verus!
