use vstd::prelude::*;

verus! {

/// The sum of the prices of a list of items.
pub open spec fn total<T>(list: Seq<T>, price: spec_fn(T) -> int) -> int
    decreases list.len(),
{
    if list.len() == 0 {
        0
    } else {
        total(list.drop_last(), price) + price(list.last())
    }
}

/// The price of a cost that is already a number.
pub open spec fn face_value() -> spec_fn(i64) -> int {
    |cost: i64| cost as int
}

/// Taking one item out of a list takes its price out of the total.
pub proof fn lemma_total_without<T>(list: Seq<T>, price: spec_fn(T) -> int, i: int)
    requires
        0 <= i < list.len(),
    ensures
        total(list, price) == total(list.remove(i), price) + price(list[i]),
    decreases list.len(),
{
    if i == list.len() - 1 {
        assert(list.remove(i) =~= list.drop_last());
    } else {
        lemma_total_without(list.drop_last(), price, i);
        assert(list.remove(i).drop_last() =~= list.drop_last().remove(i));
        assert(list.remove(i).last() == list.last());
    }
}

/// The total does not depend on the order of the list: two lists that hold
/// the same items as often as each other have the same total.
pub proof fn lemma_total_is_order_independent<T>(
    list: Seq<T>,
    shuffled: Seq<T>,
    price: spec_fn(T) -> int,
)
    requires
        list.to_multiset() == shuffled.to_multiset(),
    ensures
        total(list, price) == total(shuffled, price),
    decreases list.len(),
{
    list.to_multiset_ensures();
    shuffled.to_multiset_ensures();
    if list.len() == 0 {
        assert(shuffled.len() == 0);
    } else {
        let item = list.last();
        assert(list.contains(item));
        assert(shuffled.to_multiset().count(item) > 0);
        assert(shuffled.contains(item));
        let i = choose|i: int| 0 <= i < shuffled.len() && shuffled[i] == item;
        assert(list.drop_last() =~= list.remove(list.len() - 1));
        assert(list.drop_last().to_multiset() =~= shuffled.remove(i).to_multiset());
        lemma_total_is_order_independent(list.drop_last(), shuffled.remove(i), price);
        lemma_total_without(shuffled, price, i);
    }
}

/// A list of costs that are the prices of a list of items, one for one, has
/// the total of that list.
pub proof fn lemma_total_of_costs<T>(list: Seq<T>, price: spec_fn(T) -> int, costs: Seq<i64>)
    requires
        costs.len() == list.len(),
        forall|i: int| 0 <= i < list.len() ==> costs[i] == price(#[trigger] list[i]),
    ensures
        total(costs, face_value()) == total(list, price),
    decreases list.len(),
{
    if list.len() > 0 {
        lemma_total_of_costs(list.drop_last(), price, costs.drop_last());
    }
}

/// The total of a list of costs lies between the least and the greatest that
/// so many `i64` can add up to.
proof fn lemma_total_in_bounds(costs: Seq<i64>)
    ensures
        costs.len() * i64::MIN <= total(costs, face_value()) <= costs.len() * i64::MAX,
    decreases costs.len(),
{
    if costs.len() > 0 {
        lemma_total_in_bounds(costs.drop_last());
        assert((costs.len() - 1) * i64::MIN + i64::MIN == costs.len() * i64::MIN)
            by (nonlinear_arith);
        assert((costs.len() - 1) * i64::MAX + i64::MAX == costs.len() * i64::MAX)
            by (nonlinear_arith);
    }
}

/// Adds up a list of costs. The sum has to be an `i64`; what is added up on
/// the way to it need not be.
pub fn sum_costs(costs: &Vec<i64>) -> (sum: i64)
    requires
        i64::MIN <= total(costs@, face_value()) <= i64::MAX,
    ensures
        sum == total(costs@, face_value()),
{
    let mut sum: i128 = 0;
    let mut i: usize = 0;
    while i < costs.len()
        invariant
            i <= costs.len(),
            sum == total(costs@.take(i as int), face_value()),
        decreases costs.len() - i,
    {
        proof {
            let next = costs@.take(i + 1);
            assert(next.drop_last() =~= costs@.take(i as int));
            lemma_total_in_bounds(next);
            assert(next.len() * i64::MAX <= usize::MAX * i64::MAX) by (nonlinear_arith)
                requires
                    next.len() <= usize::MAX,
            ;
            assert(next.len() * i64::MIN >= usize::MAX * i64::MIN) by (nonlinear_arith)
                requires
                    next.len() <= usize::MAX,
            ;
        }
        sum = sum + costs[i] as i128;
        i += 1;
    }
    assert(costs@.take(i as int) =~= costs@);
    sum as i64
}

} // verus!
