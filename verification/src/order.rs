//! Enriched orders: a raw order together with the item it was fetched
//! under. Enrichment is a pure transform — it copies every raw field
//! unchanged and attaches the item — and re-running it on an enriched
//! order's raw fields with the same item gives the order back.

use vstd::prelude::*;

use crate::market;
use crate::market::{ItemModel, ItemsItem, OrderKind, UserModel};

verus! {

/// An order ready for policy evaluation: the raw fields plus the item it
/// concerns. `item` is `None` only between conversion from the raw order
/// and enrichment; every order the pipeline emits carries `Some` item.
#[derive(Debug, PartialEq, Eq)]
pub struct Order {
    pub visible: bool,
    pub creation_date: String,
    pub quantity: i32,
    pub user: market::User,
    pub last_update: String,
    pub platinum: i32,
    pub order_type: OrderKind,
    pub platform: String,
    pub id: String,
    pub region: String,
    pub item: Option<ItemsItem>,
}

/// Mathematical model of an enriched `Order`.
pub struct OrderModel {
    pub visible: bool,
    pub creation_date: Seq<char>,
    pub quantity: int,
    pub user: UserModel,
    pub last_update: Seq<char>,
    pub platinum: int,
    pub order_type: OrderKind,
    pub platform: Seq<char>,
    pub id: Seq<char>,
    pub region: Seq<char>,
    pub item: Option<ItemModel>,
}

impl View for Order {
    type V = OrderModel;

    open spec fn view(&self) -> OrderModel {
        OrderModel {
            visible: self.visible,
            creation_date: self.creation_date@,
            quantity: self.quantity as int,
            user: self.user@,
            last_update: self.last_update@,
            platinum: self.platinum as int,
            order_type: self.order_type,
            platform: self.platform@,
            id: self.id@,
            region: self.region@,
            item: self.item.deep_view(),
        }
    }
}

impl DeepView for Order {
    type V = OrderModel;

    open spec fn deep_view(&self) -> OrderModel {
        self.view()
    }
}

/// The raw fields of an enriched order, with the item dropped: the raw
/// order it was built from.
pub open spec fn raw_model_of(e: OrderModel) -> market::OrderModel {
    market::OrderModel {
        visible: e.visible,
        creation_date: e.creation_date,
        quantity: e.quantity,
        user: e.user,
        last_update: e.last_update,
        platinum: e.platinum,
        order_type: e.order_type,
        platform: e.platform,
        id: e.id,
        region: e.region,
    }
}

/// What enrichment produces: the raw fields copied unchanged, the item
/// attached.
pub open spec fn enrich_model(o: market::OrderModel, item: ItemModel) -> OrderModel {
    OrderModel {
        visible: o.visible,
        creation_date: o.creation_date,
        quantity: o.quantity,
        user: o.user,
        last_update: o.last_update,
        platinum: o.platinum,
        order_type: o.order_type,
        platform: o.platform,
        id: o.id,
        region: o.region,
        item: Some(item),
    }
}

/// Enrichment never loses a raw field: stripping the item from an
/// enriched order gives back exactly the raw order it was built from.
pub proof fn lemma_enrich_keeps_raw_fields(o: market::OrderModel, item: ItemModel)
    ensures
        raw_model_of(enrich_model(o, item)) == o,
{
}

/// Enrichment is idempotent over the raw fields: re-running the enricher
/// on an enriched order's own raw fields, with the item it already
/// carries, yields a value equal to the original.
pub proof fn lemma_enrich_idempotent(e: OrderModel, item: ItemModel)
    requires
        e.item == Some(item),
    ensures
        enrich_model(raw_model_of(e), item) == e,
{
}

/// Converts a raw order into the enriched shape, with no item attached
/// yet; every raw field is copied unchanged.
impl From<market::Order> for Order {
    fn from(order: market::Order) -> (r: Order) {
        Order {
            visible: order.visible,
            creation_date: order.creation_date,
            quantity: order.quantity,
            user: order.user,
            last_update: order.last_update,
            platinum: order.platinum,
            order_type: order.order_type,
            platform: order.platform,
            id: order.id,
            region: order.region,
            item: None,
        }
    }
}

/// What conversion from a raw order means in contracts: exactly the raw
/// fields carried over, with no item attached.
impl vstd::std_specs::convert::FromSpecImpl<market::Order> for Order {
    open spec fn obeys_from_spec() -> bool {
        true
    }

    open spec fn from_spec(order: market::Order) -> Order {
        Order {
            visible: order.visible,
            creation_date: order.creation_date,
            quantity: order.quantity,
            user: order.user,
            last_update: order.last_update,
            platinum: order.platinum,
            order_type: order.order_type,
            platform: order.platform,
            id: order.id,
            region: order.region,
            item: None,
        }
    }
}

/// Enriches one raw order with the item it was fetched under: the result
/// is the raw order's fields unchanged, plus the item.
pub fn enrich(order: market::Order, item: &ItemsItem) -> (r: Order)
    ensures
        r@ == enrich_model(order@, item@),
{
    let mut new_order = Order::from(order);
    new_order.item = Some(item.clone());
    new_order
}

} // verus!
