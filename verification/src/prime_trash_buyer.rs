//! The evaluation pipeline: takes the Market Client's fetch result for
//! one item, discards the raw orders the acceptance predicate rejects,
//! enriches the survivors with the item, and renders one message per
//! enriched order — all in the order the orders arrived, with the one
//! `FetchError` propagated unmodified.

use vstd::prelude::*;

use crate::market;
use crate::market::{FetchError, ItemModel, ItemsItem};
use crate::order;
use crate::order::{enrich, enrich_model};
use crate::policy::{AcceptancePredicate, MessageRenderer, ProfitabilityScorer};

verus! {

/// What one evaluation pass produces from the raw orders of an item:
/// the accepted orders, enriched with the item, in arrival order.
pub open spec fn evaluate_model<A: AcceptancePredicate>(
    filter: A,
    orders: Seq<market::OrderModel>,
    item: ItemModel,
) -> Seq<order::OrderModel>
    decreases orders.len(),
{
    if orders.len() == 0 {
        Seq::empty()
    } else {
        let rest = evaluate_model(filter, orders.drop_last(), item);
        if filter.accept_spec(orders.last()) {
            rest.push(enrich_model(orders.last(), item))
        } else {
            rest
        }
    }
}

/// How many of the first `n` raw orders the predicate accepts: the
/// position an accepted order takes in the evaluation result.
pub open spec fn count_accepted<A: AcceptancePredicate>(
    filter: A,
    orders: Seq<market::OrderModel>,
    n: int,
) -> int
    decreases n,
{
    if n <= 0 {
        0
    } else {
        count_accepted(filter, orders, n - 1) + if filter.accept_spec(orders[n - 1]) {
            1int
        } else {
            0int
        }
    }
}

/// `count_accepted` looks only at the first `n` orders, so two sequences
/// that agree there are counted alike.
proof fn lemma_count_prefix<A: AcceptancePredicate>(
    filter: A,
    s1: Seq<market::OrderModel>,
    s2: Seq<market::OrderModel>,
    n: int,
)
    requires
        n <= s1.len(),
        n <= s2.len(),
        forall|k: int| 0 <= k < n ==> s1[k] == s2[k],
    ensures
        count_accepted(filter, s1, n) == count_accepted(filter, s2, n),
    decreases n,
{
    if n > 0 {
        lemma_count_prefix(filter, s1, s2, n - 1);
    }
}

/// The count of accepted orders never decreases as the prefix grows.
pub proof fn lemma_count_monotone<A: AcceptancePredicate>(
    filter: A,
    orders: Seq<market::OrderModel>,
    i: int,
    j: int,
)
    requires
        i <= j,
    ensures
        count_accepted(filter, orders, i) <= count_accepted(filter, orders, j),
    decreases j - i,
{
    if i < j {
        lemma_count_monotone(filter, orders, i, j - 1);
    }
}

/// The evaluation result holds exactly one order per accepted raw order.
pub proof fn lemma_evaluate_len<A: AcceptancePredicate>(
    filter: A,
    orders: Seq<market::OrderModel>,
    item: ItemModel,
)
    ensures
        evaluate_model(filter, orders, item).len() == count_accepted(
            filter,
            orders,
            orders.len() as int,
        ),
    decreases orders.len(),
{
    if orders.len() > 0 {
        lemma_evaluate_len(filter, orders.drop_last(), item);
        lemma_count_prefix(filter, orders.drop_last(), orders, orders.len() - 1);
    }
}

/// Where an accepted raw order lands: the order at position `i` of the
/// raw response, if accepted, stands — enriched — at position
/// `count_accepted(filter, orders, i)` of the evaluation result.
pub proof fn lemma_evaluate_index<A: AcceptancePredicate>(
    filter: A,
    orders: Seq<market::OrderModel>,
    item: ItemModel,
    i: int,
)
    requires
        0 <= i < orders.len(),
        filter.accept_spec(orders[i]),
    ensures
        0 <= count_accepted(filter, orders, i) < evaluate_model(filter, orders, item).len(),
        evaluate_model(filter, orders, item)[count_accepted(filter, orders, i)] == enrich_model(
            orders[i],
            item,
        ),
    decreases orders.len(),
{
    lemma_count_monotone(filter, orders, 0, i);
    lemma_evaluate_len(filter, orders, item);
    lemma_count_monotone(filter, orders, i + 1, orders.len() as int);
    if i == orders.len() - 1 {
        lemma_evaluate_len(filter, orders.drop_last(), item);
        lemma_count_prefix(filter, orders.drop_last(), orders, orders.len() - 1);
    } else {
        lemma_evaluate_index(filter, orders.drop_last(), item, i);
        lemma_count_prefix(filter, orders.drop_last(), orders, i);
    }
}

/// Evaluation preserves the relative order of accepted orders: if the
/// raw order at `i` precedes the one at `j` and both are accepted, their
/// enriched forms stand in the result in that same order.
pub proof fn lemma_evaluate_preserves_order<A: AcceptancePredicate>(
    filter: A,
    orders: Seq<market::OrderModel>,
    item: ItemModel,
    i: int,
    j: int,
)
    requires
        0 <= i < j < orders.len(),
        filter.accept_spec(orders[i]),
        filter.accept_spec(orders[j]),
    ensures
        ({
            let result = evaluate_model(filter, orders, item);
            let pi = count_accepted(filter, orders, i);
            let pj = count_accepted(filter, orders, j);
            &&& 0 <= pi < pj < result.len()
            &&& result[pi] == enrich_model(orders[i], item)
            &&& result[pj] == enrich_model(orders[j], item)
        }),
{
    lemma_evaluate_index(filter, orders, item, i);
    lemma_evaluate_index(filter, orders, item, j);
    assert(count_accepted(filter, orders, i + 1) == count_accepted(filter, orders, i) + 1);
    lemma_count_monotone(filter, orders, i + 1, j);
}

/// Every order the evaluation emits carries the item it was evaluated
/// under: its `item` field is `Some` of exactly that item.
pub proof fn lemma_evaluated_orders_carry_item<A: AcceptancePredicate>(
    filter: A,
    orders: Seq<market::OrderModel>,
    item: ItemModel,
)
    ensures
        forall|k: int|
            0 <= k < evaluate_model(filter, orders, item).len() ==> (#[trigger] evaluate_model(
                filter,
                orders,
                item,
            )[k]).item == Some(item),
    decreases orders.len(),
{
    if orders.len() > 0 {
        lemma_evaluated_orders_carry_item(filter, orders.drop_last(), item);
    }
}

/// The pipeline: a stateless per-invocation transform holding the three
/// policy slots — acceptance predicate, profitability scorer, message
/// renderer — each independently replaceable at construction.
pub struct PrimeTrashBuyer<A: AcceptancePredicate, S: ProfitabilityScorer, R: MessageRenderer<S>> {
    pub filter_order: A,
    pub get_profitable_sum: S,
    pub get_message: R,
}

impl<A: AcceptancePredicate, S: ProfitabilityScorer, R: MessageRenderer<S>> PrimeTrashBuyer<
    A,
    S,
    R,
> {
    /// Builds a pipeline from the three policy slots.
    pub fn new(filter_order: A, get_profitable_sum: S, get_message: R) -> (r: Self)
        ensures
            r.filter_order == filter_order,
            r.get_profitable_sum == get_profitable_sum,
            r.get_message == get_message,
    {
        PrimeTrashBuyer { filter_order, get_profitable_sum, get_message }
    }

    /// Evaluates one item's fetch result: a fetch failure is propagated
    /// unmodified with no partial result; a fetched order list yields
    /// exactly the accepted orders, enriched with `item`, in arrival
    /// order.
    pub fn get_orders(&self, item: &ItemsItem, fetched: Result<Vec<market::Order>, FetchError>) -> (r:
        Result<Vec<order::Order>, FetchError>)
        ensures
            fetched is Err ==> r is Err && r->Err_0 == fetched->Err_0,
            fetched is Ok ==> r is Ok && r->Ok_0.deep_view() == evaluate_model(
                self.filter_order,
                fetched->Ok_0.deep_view(),
                item@,
            ),
    {
        match fetched {
            Err(e) => Err(e),
            Ok(orders) => {
                let mut result: Vec<order::Order> = Vec::new();
                let mut i: usize = 0;
                while i < orders.len()
                    invariant
                        i <= orders.len(),
                        result.deep_view() == evaluate_model(
                            self.filter_order,
                            orders.deep_view().take(i as int),
                            item@,
                        ),
                    decreases orders.len() - i,
                {
                    let accepted = self.filter_order.filter_order(&orders[i]);
                    let ghost pre = result.deep_view();
                    if accepted {
                        let enriched = enrich(orders[i].clone(), item);
                        result.push(enriched);
                        proof {
                            assert(result.deep_view() =~= pre.push(
                                enrich_model(orders.deep_view()[i as int], item@),
                            ));
                        }
                    }
                    proof {
                        let taken = orders.deep_view().take(i as int + 1);
                        assert(taken.drop_last() =~= orders.deep_view().take(i as int));
                        assert(taken.last() == orders.deep_view()[i as int]);
                    }
                    i = i + 1;
                }
                proof {
                    assert(orders.deep_view().take(orders@.len() as int) =~= orders.deep_view());
                }
                Ok(result)
            },
        }
    }

    /// Renders one message per order, in input order, through the
    /// pipeline's message renderer and scorer; zero orders yield zero
    /// messages.
    pub fn get_messages(&self, orders: Vec<order::Order>) -> (r: Vec<String>)
        ensures
            r@.len() == orders@.len(),
            forall|k: int|
                0 <= k < orders@.len() ==> r.deep_view()[k] == self.get_message.message_spec(
                    orders.deep_view()[k],
                    self.get_profitable_sum,
                ),
    {
        let mut result: Vec<String> = Vec::new();
        let mut i: usize = 0;
        while i < orders.len()
            invariant
                i <= orders.len(),
                result@.len() == i,
                forall|k: int|
                    0 <= k < i ==> result.deep_view()[k] == self.get_message.message_spec(
                        orders.deep_view()[k],
                        self.get_profitable_sum,
                    ),
            decreases orders.len() - i,
        {
            let m = self.get_message.get_message(&orders[i], &self.get_profitable_sum);
            let ghost pre = result.deep_view();
            let ghost message = m@;
            result.push(m);
            proof {
                assert(result.deep_view() =~= pre.push(message));
            }
            i = i + 1;
        }
        result
    }
}

} // verus!

