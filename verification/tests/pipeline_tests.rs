use prime_trash_buyer::market::{FetchError, ItemsItem, Order as RawOrder, OrderKind, User};
use prime_trash_buyer::order::{enrich, Order};
use prime_trash_buyer::policy::{
    DefaultFilterOrder, DefaultGetMessage, DefaultGetProfitableSum, ProfitabilityScorer,
};
use prime_trash_buyer::prime_trash_buyer::PrimeTrashBuyer;

fn seller(name: &str) -> User {
    User {
        reputation: 12,
        locale: String::from("en"),
        avatar: Some(String::from("avatar.png")),
        ingame_name: String::from(name),
        last_seen: String::from("2024-02-03T04:05:06Z"),
        id: String::from("user-9"),
        region: String::from("en"),
        status: String::from("ingame"),
    }
}

fn raw_order(id: &str, kind: OrderKind, platinum: i32) -> RawOrder {
    RawOrder {
        visible: true,
        creation_date: String::from("2024-01-01T00:00:00Z"),
        quantity: 2,
        user: seller("bob"),
        last_update: String::from("2024-01-05T00:00:00Z"),
        platinum,
        order_type: kind,
        platform: String::from("pc"),
        id: String::from(id),
        region: String::from("en"),
    }
}

fn vaulted_item(slug: &str) -> ItemsItem {
    ItemsItem {
        id: String::from("item-7"),
        url_name: String::from(slug),
        item_name: String::from("New Loka Sigil"),
        thumb: String::from("sigil.png"),
        vaulted: Some(true),
    }
}

fn default_buyer() -> PrimeTrashBuyer<DefaultFilterOrder, DefaultGetProfitableSum, DefaultGetMessage>
{
    PrimeTrashBuyer::new(DefaultFilterOrder, DefaultGetProfitableSum, DefaultGetMessage)
}

#[test]
fn scenario_vaulted_sigil() {
    let buyer = default_buyer();
    let item = vaulted_item("new_loka_sigil");
    let fetched = Ok(vec![
        raw_order("a", OrderKind::Sell, 10),
        raw_order("b", OrderKind::Buy, 50),
        raw_order("c", OrderKind::Sell, 5),
    ]);

    let orders = buyer.get_orders(&item, fetched).unwrap();
    assert_eq!(orders.len(), 2);
    assert_eq!(orders[0].platinum, 10);
    assert_eq!(orders[1].platinum, 5);
    assert_eq!(orders[0].item, Some(vaulted_item("new_loka_sigil")));
    assert_eq!(orders[1].item, Some(vaulted_item("new_loka_sigil")));

    let cheap_score = DefaultGetProfitableSum.get_profitable_sum(&orders[1]);
    let dear_score = DefaultGetProfitableSum.get_profitable_sum(&orders[0]);
    assert!(cheap_score > dear_score);

    let messages = buyer.get_messages(orders);
    assert_eq!(messages.len(), 2);
    assert!(messages[0].contains("new_loka_sigil"));
    assert!(messages[0].contains("10"));
    assert!(messages[1].contains("new_loka_sigil"));
    assert!(messages[1].contains("5"));
}

#[test]
fn fetch_error_propagates() {
    let buyer = default_buyer();
    let item = vaulted_item("new_loka_sigil");
    let result = buyer.get_orders(&item, Err(FetchError::Network));
    assert_eq!(result, Err(FetchError::Network));
}

#[test]
fn fetch_error_http_status_propagates() {
    let buyer = default_buyer();
    let item = vaulted_item("x");
    let result = buyer.get_orders(&item, Err(FetchError::HttpStatus(502)));
    assert_eq!(result, Err(FetchError::HttpStatus(502)));
}

#[test]
fn fetch_error_malformed_propagates() {
    let buyer = default_buyer();
    let item = vaulted_item("x");
    let result = buyer.get_orders(&item, Err(FetchError::MalformedPayload));
    assert_eq!(result, Err(FetchError::MalformedPayload));
}

#[test]
fn zero_orders_yield_empty_result() {
    let buyer = default_buyer();
    let item = vaulted_item("x");
    let orders = buyer.get_orders(&item, Ok(vec![])).unwrap();
    assert!(orders.is_empty());
}

#[test]
fn all_rejected_yield_empty_result() {
    let buyer = default_buyer();
    let item = vaulted_item("x");
    let fetched = Ok(vec![raw_order("a", OrderKind::Buy, 3), raw_order("b", OrderKind::Buy, 4)]);
    let orders = buyer.get_orders(&item, fetched).unwrap();
    assert!(orders.is_empty());
}

#[test]
fn accepted_orders_keep_relative_order() {
    let buyer = default_buyer();
    let item = vaulted_item("x");
    let fetched = Ok(vec![
        raw_order("a", OrderKind::Sell, 1),
        raw_order("b", OrderKind::Sell, 2),
        raw_order("c", OrderKind::Buy, 3),
        raw_order("d", OrderKind::Sell, 4),
    ]);
    let orders = buyer.get_orders(&item, fetched).unwrap();
    let ids: Vec<&str> = orders.iter().map(|o| o.id.as_str()).collect();
    assert_eq!(ids, vec!["a", "b", "d"]);
}

#[test]
fn enriched_orders_carry_the_item() {
    let buyer = default_buyer();
    let item = vaulted_item("carried");
    let fetched = Ok(vec![raw_order("a", OrderKind::Sell, 8), raw_order("b", OrderKind::Sell, 9)]);
    let orders = buyer.get_orders(&item, fetched).unwrap();
    for order in &orders {
        assert_eq!(order.item.as_ref(), Some(&item));
    }
}

#[test]
fn enrichment_copies_raw_fields_and_is_idempotent() {
    let item = vaulted_item("again");
    let enriched = enrich(raw_order("a", OrderKind::Sell, 6), &item);
    assert_eq!(enriched.platinum, 6);
    assert_eq!(enriched.user.ingame_name, "bob");
    assert_eq!(enriched.item.as_ref(), Some(&item));

    let raw_again = RawOrder {
        visible: enriched.visible,
        creation_date: enriched.creation_date.clone(),
        quantity: enriched.quantity,
        user: enriched.user.clone(),
        last_update: enriched.last_update.clone(),
        platinum: enriched.platinum,
        order_type: enriched.order_type,
        platform: enriched.platform.clone(),
        id: enriched.id.clone(),
        region: enriched.region.clone(),
    };
    let enriched_again = enrich(raw_again, &item);
    assert_eq!(enriched_again, enriched);
}

#[test]
fn conversion_from_raw_leaves_item_unset() {
    let converted = Order::from(raw_order("a", OrderKind::Sell, 11));
    assert_eq!(converted.item, None);
    assert_eq!(converted.platinum, 11);
    assert_eq!(converted.id, "a");
}

#[test]
fn messages_come_one_per_order_in_order() {
    let buyer = default_buyer();
    let item = vaulted_item("ordered");
    let first = enrich(raw_order("a", OrderKind::Sell, 1), &item);
    let second = enrich(raw_order("b", OrderKind::Sell, 2), &item);
    let messages = buyer.get_messages(vec![first, second]);
    assert_eq!(messages.len(), 2);
    assert!(messages[0].contains("for 1 platinum"));
    assert!(messages[1].contains("for 2 platinum"));
}

#[test]
fn zero_orders_yield_zero_messages() {
    let buyer = default_buyer();
    let messages = buyer.get_messages(vec![]);
    assert!(messages.is_empty());
}
