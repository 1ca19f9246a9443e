//! The evaluation policy set: three independently replaceable strategies
//! — an acceptance predicate over raw orders, a profitability scorer over
//! enriched orders, and a message renderer — each a trait whose executable
//! method is pinned to its own spec-level function, together with the
//! documented default implementation of each.

use vstd::prelude::*;
use vstd::string::StringExecFns;

use crate::market;
use crate::market::OrderKind;
use crate::order;
use crate::render::{dec_int, i64_to_dec_string};

verus! {

/// Decides whether a raw order is worth evaluating further. Must be a
/// pure, total function of the order: the executable method returns
/// exactly what the implementation's `accept_spec` says.
pub trait AcceptancePredicate: Sized {
    /// What this predicate accepts, as a function of the order's model.
    spec fn accept_spec(&self, o: market::OrderModel) -> bool;

    /// Returns whether the order is accepted.
    fn filter_order(&self, o: &market::Order) -> (r: bool)
        ensures
            r == self.accept_spec(o@),
    ;
}

/// Ranks enriched orders by estimated profitability; higher is better.
/// Must be a pure, total function of the order.
pub trait ProfitabilityScorer: Sized {
    /// The score this scorer assigns, as a function of the order's model.
    spec fn score_spec(&self, o: order::OrderModel) -> int;

    /// Returns the order's profitability score.
    fn get_profitable_sum(&self, o: &order::Order) -> (r: i64)
        ensures
            r as int == self.score_spec(o@),
    ;
}

/// Produces one human-readable line for an enriched order. It receives
/// the scorer rather than a precomputed score, so a renderer may
/// recompute or display the score as it sees fit.
pub trait MessageRenderer<S: ProfitabilityScorer>: Sized {
    /// The message this renderer produces, as a function of the order's
    /// model and the scorer.
    spec fn message_spec(&self, o: order::OrderModel, scorer: S) -> Seq<char>;

    /// Returns the message describing the order.
    fn get_message(&self, o: &order::Order, scorer: &S) -> (r: String)
        ensures
            r@ == self.message_spec(o@, *scorer),
    ;
}

/// The default acceptance predicate: the system acts as a buyer, so only
/// sell orders are worth evaluating. Accepts an order exactly when its
/// kind is `Sell`.
#[derive(Clone, Copy, Debug, PartialEq, Eq, Structural)]
pub struct DefaultFilterOrder;

impl AcceptancePredicate for DefaultFilterOrder {
    open spec fn accept_spec(&self, o: market::OrderModel) -> bool {
        o.order_type == OrderKind::Sell
    }

    fn filter_order(&self, o: &market::Order) -> (r: bool) {
        o.order_type == OrderKind::Sell
    }
}

/// The default profitability scorer: the negated price, so that cheaper
/// sell orders rank higher ("the more below market, the more profitable
/// to buy").
#[derive(Clone, Copy, Debug, PartialEq, Eq, Structural)]
pub struct DefaultGetProfitableSum;

impl ProfitabilityScorer for DefaultGetProfitableSum {
    open spec fn score_spec(&self, o: order::OrderModel) -> int {
        -o.platinum
    }

    fn get_profitable_sum(&self, o: &order::Order) -> (r: i64) {
        -(o.platinum as i64)
    }
}

/// The one invariant required of a profitability formula, shown for the
/// default scorer: higher score means more profitable, so of two orders
/// the cheaper one scores strictly higher.
pub proof fn lemma_default_scorer_prefers_cheaper(a: order::OrderModel, b: order::OrderModel)
    requires
        a.platinum < b.platinum,
    ensures
        DefaultGetProfitableSum.score_spec(a) > DefaultGetProfitableSum.score_spec(b),
{
}

/// The item slug an enriched order carries, or the empty sequence if no
/// item is attached.
pub open spec fn item_slug_model(o: order::OrderModel) -> Seq<char> {
    match o.item {
        Some(i) => i.url_name,
        None => Seq::empty(),
    }
}

/// The line the default renderer produces for an order and a score:
/// seller, item slug, price and score.
pub open spec fn default_message_model(o: order::OrderModel, score: int) -> Seq<char> {
    o.user.ingame_name + " sells "@ + item_slug_model(o) + " for "@ + dec_int(o.platinum)
        + " platinum (score "@ + dec_int(score) + ")"@
}

/// The default message renderer: one line naming the seller, the item's
/// slug, the price in platinum and the score the given scorer assigns.
#[derive(Clone, Copy, Debug, PartialEq, Eq, Structural)]
pub struct DefaultGetMessage;

impl<S: ProfitabilityScorer> MessageRenderer<S> for DefaultGetMessage {
    open spec fn message_spec(&self, o: order::OrderModel, scorer: S) -> Seq<char> {
        default_message_model(o, scorer.score_spec(o))
    }

    fn get_message(&self, o: &order::Order, scorer: &S) -> (r: String) {
        let score = scorer.get_profitable_sum(o);
        let mut s = String::from_str(o.user.ingame_name.as_str());
        s.append(" sells ");
        match &o.item {
            Some(i) => s.append(i.url_name.as_str()),
            None => (),
        }
        s.append(" for ");
        s.append(i64_to_dec_string(o.platinum as i64).as_str());
        s.append(" platinum (score ");
        s.append(i64_to_dec_string(score).as_str());
        s.append(")");
        s
    }
}

} // verus!
