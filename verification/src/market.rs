//! Raw marketplace records, as the Market Client hands them over:
//! tradeable items, the users placing orders, and the orders themselves
//! (not yet tied to their item), together with the response envelopes
//! the transport layer unwraps and the single error kind it can raise.

use vstd::prelude::*;

verus! {

/// The two kinds of order a user can place: an offer to buy, or to sell.
#[derive(Clone, Copy, Debug, PartialEq, Eq, Structural)]
pub enum OrderKind {
    Buy,
    Sell,
}

/// The one failure the Market Client can raise; the pipeline propagates
/// it unmodified and never retries or suppresses it.
#[derive(Clone, Copy, Debug, PartialEq, Eq, Structural)]
pub enum FetchError {
    /// The transport failed before an HTTP response arrived.
    Network,
    /// The server answered with a non-success status code.
    HttpStatus(u16),
    /// The response body could not be decoded into the expected records.
    MalformedPayload,
}

/// The user who placed an order, embedded by value inside it.
#[derive(Debug, PartialEq, Eq)]
pub struct User {
    pub reputation: i32,
    pub locale: String,
    pub avatar: Option<String>,
    pub ingame_name: String,
    pub last_seen: String,
    pub id: String,
    pub region: String,
    pub status: String,
}

/// Mathematical model of a `User`: strings as character sequences,
/// machine integers widened to `int`.
pub struct UserModel {
    pub reputation: int,
    pub locale: Seq<char>,
    pub avatar: Option<Seq<char>>,
    pub ingame_name: Seq<char>,
    pub last_seen: Seq<char>,
    pub id: Seq<char>,
    pub region: Seq<char>,
    pub status: Seq<char>,
}

impl View for User {
    type V = UserModel;

    open spec fn view(&self) -> UserModel {
        UserModel {
            reputation: self.reputation as int,
            locale: self.locale@,
            avatar: self.avatar.deep_view(),
            ingame_name: self.ingame_name@,
            last_seen: self.last_seen@,
            id: self.id@,
            region: self.region@,
            status: self.status@,
        }
    }
}

impl DeepView for User {
    type V = UserModel;

    open spec fn deep_view(&self) -> UserModel {
        self.view()
    }
}

impl Clone for User {
    fn clone(&self) -> (r: Self)
        ensures
            r == *self,
    {
        User {
            reputation: self.reputation,
            locale: self.locale.clone(),
            avatar: match &self.avatar {
                Some(a) => Some(a.clone()),
                None => None,
            },
            ingame_name: self.ingame_name.clone(),
            last_seen: self.last_seen.clone(),
            id: self.id.clone(),
            region: self.region.clone(),
            status: self.status.clone(),
        }
    }
}

/// A raw order as returned by the Market Client: it never carries the
/// item it concerns; enrichment attaches that later.
#[derive(Debug, PartialEq, Eq)]
pub struct Order {
    pub visible: bool,
    pub creation_date: String,
    pub quantity: i32,
    pub user: User,
    pub last_update: String,
    pub platinum: i32,
    pub order_type: OrderKind,
    pub platform: String,
    pub id: String,
    pub region: String,
}

/// Mathematical model of a raw `Order`.
pub struct OrderModel {
    pub visible: bool,
    pub creation_date: Seq<char>,
    pub quantity: int,
    pub user: UserModel,
    pub last_update: Seq<char>,
    pub platinum: int,
    pub order_type: OrderKind,
    pub platform: Seq<char>,
    pub id: Seq<char>,
    pub region: Seq<char>,
}

impl View for Order {
    type V = OrderModel;

    open spec fn view(&self) -> OrderModel {
        OrderModel {
            visible: self.visible,
            creation_date: self.creation_date@,
            quantity: self.quantity as int,
            user: self.user@,
            last_update: self.last_update@,
            platinum: self.platinum as int,
            order_type: self.order_type,
            platform: self.platform@,
            id: self.id@,
            region: self.region@,
        }
    }
}

impl DeepView for Order {
    type V = OrderModel;

    open spec fn deep_view(&self) -> OrderModel {
        self.view()
    }
}

impl Clone for Order {
    fn clone(&self) -> (r: Self)
        ensures
            r == *self,
    {
        Order {
            visible: self.visible,
            creation_date: self.creation_date.clone(),
            quantity: self.quantity,
            user: self.user.clone(),
            last_update: self.last_update.clone(),
            platinum: self.platinum,
            order_type: self.order_type,
            platform: self.platform.clone(),
            id: self.id.clone(),
            region: self.region.clone(),
        }
    }
}

/// A tradeable item: its identifier, URL-safe slug, display name,
/// thumbnail reference, and whether it has been vaulted (withdrawn from
/// the normal acquisition pool).
#[derive(Debug, PartialEq, Eq)]
pub struct ItemsItem {
    pub id: String,
    pub url_name: String,
    pub item_name: String,
    pub thumb: String,
    pub vaulted: Option<bool>,
}

/// Mathematical model of an `ItemsItem`.
pub struct ItemModel {
    pub id: Seq<char>,
    pub url_name: Seq<char>,
    pub item_name: Seq<char>,
    pub thumb: Seq<char>,
    pub vaulted: Option<bool>,
}

impl View for ItemsItem {
    type V = ItemModel;

    open spec fn view(&self) -> ItemModel {
        ItemModel {
            id: self.id@,
            url_name: self.url_name@,
            item_name: self.item_name@,
            thumb: self.thumb@,
            vaulted: self.vaulted,
        }
    }
}

impl DeepView for ItemsItem {
    type V = ItemModel;

    open spec fn deep_view(&self) -> ItemModel {
        self.view()
    }
}

impl Clone for ItemsItem {
    fn clone(&self) -> (r: Self)
        ensures
            r == *self,
    {
        ItemsItem {
            id: self.id.clone(),
            url_name: self.url_name.clone(),
            item_name: self.item_name.clone(),
            thumb: self.thumb.clone(),
            vaulted: self.vaulted,
        }
    }
}

/// Generic transport envelope around an API payload; the surrounding
/// program unwraps it immediately after deserialization.
pub struct ApiResponse<TPayload> {
    pub payload: TPayload,
}

/// Payload of the order-listing endpoint.
pub struct OrdersPayload {
    pub orders: Vec<Order>,
}

/// Payload of the item-listing endpoint.
pub struct ItemsPayload {
    pub items: Vec<ItemsItem>,
}

pub type OrdersApiResponse = ApiResponse<OrdersPayload>;

pub type ItemsApiResponse = ApiResponse<ItemsPayload>;

} // verus!
