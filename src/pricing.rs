//! The fixed price table and the pricing of an order.
use crate::entities::Order;
use crate::entities::OrderView;
use vstd::prelude::*;

verus! {

/// The price of one need: a need is matched verbatim against the table,
/// and one that is not in it is worth nothing.
pub open spec fn need_price(need: Seq<char>) -> nat {
    if need == "Carpet Cleaning"@ {
        200
    } else if need == "Window Cleaning"@ {
        100
    } else if need == "Floor Cleaning"@ {
        150
    } else {
        0
    }
}

/// Whether a need appears in the price table.
pub open spec fn is_known_need(need: Seq<char>) -> bool {
    need == "Carpet Cleaning"@ || need == "Window Cleaning"@ || need == "Floor Cleaning"@
}

/// The sum of the table prices of a list of needs.
pub open spec fn needs_total(needs: Seq<Seq<char>>) -> nat
    decreases needs.len(),
{
    if needs.len() == 0 {
        0
    } else {
        needs_total(needs.drop_last()) + need_price(needs.last())
    }
}

/// How many needs of a list are missing from the price table.
pub open spec fn unknown_needs(needs: Seq<Seq<char>>) -> nat
    decreases needs.len(),
{
    if needs.len() == 0 {
        0
    } else {
        unknown_needs(needs.drop_last()) + if is_known_need(needs.last()) {
            0nat
        } else {
            1nat
        }
    }
}

/// The order with its price set to the total of its needs; all else as it was.
pub open spec fn priced(order: OrderView) -> OrderView {
    OrderView { price: needs_total(order.cleaning_needs), ..order }
}

/// An order with a single need is priced at that need's table price:
/// 200 for carpet, 100 for window and 150 for floor cleaning.
pub proof fn lemma_single_need_price(order: OrderView, need: Seq<char>)
    requires
        order.cleaning_needs == seq![need],
    ensures
        priced(order).price == need_price(need),
        need == "Carpet Cleaning"@ ==> priced(order).price == 200,
        need == "Window Cleaning"@ ==> priced(order).price == 100,
        need == "Floor Cleaning"@ ==> priced(order).price == 150,
{
    reveal_strlit("Carpet Cleaning");
    reveal_strlit("Window Cleaning");
    reveal_strlit("Floor Cleaning");
    assert("Window Cleaning"@[0] != "Carpet Cleaning"@[0]);
    assert("Floor Cleaning"@[0] != "Carpet Cleaning"@[0]);
    assert("Floor Cleaning"@[0] != "Window Cleaning"@[0]);
    let needs = seq![need];
    assert(needs.drop_last() =~= Seq::<Seq<char>>::empty());
    assert(needs.last() == need);
    assert(needs_total(needs) == needs_total(needs.drop_last()) + need_price(need));
}

/// The price of an order does not depend on the customer's budget: changing
/// the budget before pricing leaves the computed price as it was.
pub proof fn lemma_price_ignores_budget(order: OrderView, budget: nat)
    ensures
        priced(OrderView { customer: order.customer.with_budget(budget), ..order }).price
            == priced(order).price,
        priced(OrderView { customer: order.customer.with_budget(budget), ..order }).customer.budget
            == budget,
{
}

/// The total of a prefix never exceeds the total of the whole list.
proof fn lemma_prefix_total_le(needs: Seq<Seq<char>>, k: int)
    requires
        0 <= k <= needs.len(),
    ensures
        needs_total(needs.take(k)) <= needs_total(needs),
    decreases needs.len(),
{
    if k < needs.len() {
        assert(needs.drop_last().take(k) =~= needs.take(k));
        lemma_prefix_total_le(needs.drop_last(), k);
    } else {
        assert(needs.take(k) =~= needs);
    }
}

/// Looks a need up in the price table: `Some(price)` for a known need,
/// `None` for any other text.
pub fn price_of_need(need: &String) -> (r: Option<usize>)
    ensures
        r.is_some() == is_known_need(need@),
        r.is_some() ==> r.unwrap() as nat == need_price(need@),
{
    if *need == String::from_str("Carpet Cleaning") {
        Some(200)
    } else if *need == String::from_str("Window Cleaning") {
        Some(100)
    } else if *need == String::from_str("Floor Cleaning") {
        Some(150)
    } else {
        None
    }
}

/// Sets the order's price to the sum of the table prices of its needs.
/// Needs missing from the table add nothing; the result is how many of them
/// there were, one diagnostic each for the caller to report.
pub fn calculate_price(order: &mut Order) -> (unknown: usize)
    requires
        needs_total(old(order)@.cleaning_needs) <= usize::MAX,
    ensures
        final(order)@ == priced(old(order)@),
        unknown as nat == unknown_needs(old(order)@.cleaning_needs),
{
    let ghost needs = order.cleaning_needs.deep_view();
    let n = order.cleaning_needs.len();
    let mut price: usize = 0;
    let mut unknown: usize = 0;
    let mut i: usize = 0;
    while i < n
        invariant
            n == order.cleaning_needs.len(),
            needs == order.cleaning_needs.deep_view(),
            needs == old(order)@.cleaning_needs,
            needs_total(needs) <= usize::MAX,
            0 <= i <= n,
            price as nat == needs_total(needs.take(i as int)),
            unknown as nat == unknown_needs(needs.take(i as int)),
            unknown <= i,
        decreases n - i,
    {
        assert(needs.take(i as int + 1).drop_last() =~= needs.take(i as int));
        proof {
            lemma_prefix_total_le(needs, i as int + 1);
        }
        match price_of_need(&order.cleaning_needs[i]) {
            Some(p) => {
                price = price + p;
            },
            None => {
                unknown = unknown + 1;
            },
        }
        i = i + 1;
    }
    assert(needs.take(n as int) =~= needs);
    order.price = price;
    unknown
}

} // verus!
