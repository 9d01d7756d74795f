use crate::continuum::entities::ProducerEntity;
use crate::continuum::inventory::amount;
use vstd::prelude::*;

verus! {

/// The producers as one tick of `elapsed` milliseconds leaves them: each is
/// ticked on its own.
pub open spec fn ticked(producers: Seq<ProducerEntity>, elapsed: u64) -> Seq<ProducerEntity> {
    Seq::new(producers.len(), |i: int| producers[i].after_tick(elapsed))
}

/// What the producers of the product `name` yield together in one tick of
/// `elapsed` milliseconds.
pub open spec fn gain(producers: Seq<ProducerEntity>, name: Seq<char>, elapsed: u64) -> nat
    decreases producers.len(),
{
    if producers.len() == 0 {
        0
    } else {
        let last = producers.last();
        gain(producers.drop_last(), name, elapsed) + if last.product_type.name@ == name {
            last.output_on_tick(elapsed)
        } else {
            0
        }
    }
}

/// The stock after one tick: every product holds what it held and what its
/// producers yielded. A product is listed once something was produced of it.
pub open spec fn stocked(
    stock: Map<Seq<char>, nat>,
    producers: Seq<ProducerEntity>,
    elapsed: u64,
) -> Map<Seq<char>, nat> {
    Map::new(
        |name: Seq<char>| stock.contains_key(name) || gain(producers, name, elapsed) > 0,
        |name: Seq<char>| amount(stock, name) + gain(producers, name, elapsed),
    )
}

/// Whether the stock after one tick of `elapsed` milliseconds can be counted:
/// no product's quantity leaves the range of a `u64`.
pub open spec fn tick_fits(
    stock: Map<Seq<char>, nat>,
    producers: Seq<ProducerEntity>,
    elapsed: u64,
) -> bool {
    forall|name: Seq<char>|
        amount(stock, name) + #[trigger] gain(producers, name, elapsed) <= u64::MAX
}

/// What the first producers yield of a product is part of what all yield.
pub proof fn lemma_gain_of_prefix(
    producers: Seq<ProducerEntity>,
    name: Seq<char>,
    elapsed: u64,
    n: int,
)
    requires
        0 <= n <= producers.len(),
    ensures
        gain(producers.take(n), name, elapsed) <= gain(producers, name, elapsed),
    decreases producers.len(),
{
    if n == producers.len() {
        assert(producers.take(n) =~= producers);
    } else {
        assert(producers.drop_last().take(n) =~= producers.take(n));
        lemma_gain_of_prefix(producers.drop_last(), name, elapsed, n);
    }
}

/// One more producer adds its yield to its own product and to no other.
pub proof fn lemma_gain_of_next(
    producers: Seq<ProducerEntity>,
    name: Seq<char>,
    elapsed: u64,
    n: int,
)
    requires
        0 <= n < producers.len(),
    ensures
        gain(producers.take(n + 1), name, elapsed) == gain(producers.take(n), name, elapsed)
            + if producers[n].product_type.name@ == name {
            producers[n].output_on_tick(elapsed)
        } else {
            0
        },
{
    assert(producers.take(n + 1).drop_last() =~= producers.take(n));
    assert(producers.take(n + 1).last() == producers[n]);
}

/// One more producer changes the stock of its own product by what it yields,
/// and leaves the stock as it is if it yields nothing.
pub proof fn lemma_stocked_of_next(
    stock: Map<Seq<char>, nat>,
    producers: Seq<ProducerEntity>,
    elapsed: u64,
    n: int,
)
    requires
        0 <= n < producers.len(),
    ensures
        stocked(stock, producers.take(n + 1), elapsed) == if producers[n].output_on_tick(elapsed)
            > 0 {
            stocked(stock, producers.take(n), elapsed).insert(
                producers[n].product_type.name@,
                amount(
                    stocked(stock, producers.take(n), elapsed),
                    producers[n].product_type.name@,
                ) + producers[n].output_on_tick(elapsed),
            )
        } else {
            stocked(stock, producers.take(n), elapsed)
        },
{
    let name = producers[n].product_type.name@;
    let output = producers[n].output_on_tick(elapsed);
    let held = stocked(stock, producers.take(n), elapsed);
    let next = stocked(stock, producers.take(n + 1), elapsed);
    let claimed = if output > 0 {
        held.insert(name, amount(held, name) + output)
    } else {
        held
    };
    assert forall|key: Seq<char>| claimed.contains_key(key) <==> next.contains_key(key) by {
        lemma_gain_of_next(producers, key, elapsed, n);
    }
    assert forall|key: Seq<char>| next.contains_key(key) implies claimed[key] == next[key] by {
        lemma_gain_of_next(producers, key, elapsed, n);
    }
    assert(claimed.dom() =~= next.dom());
    assert(claimed =~= next);
}

/// A product gains only if one of its producers yields something.
pub proof fn lemma_gain_has_source(producers: Seq<ProducerEntity>, name: Seq<char>, elapsed: u64)
    requires
        gain(producers, name, elapsed) > 0,
    ensures
        exists|i: int|
            0 <= i < producers.len() && (#[trigger] producers[i]).product_type.name@ == name
                && producers[i].output_on_tick(elapsed) > 0,
    decreases producers.len(),
{
    let last = producers.last();
    if last.product_type.name@ == name && last.output_on_tick(elapsed) > 0 {
        assert(producers[producers.len() - 1] == last);
    } else {
        let rest = producers.drop_last();
        lemma_gain_has_source(rest, name, elapsed);
        let i = choose|i: int|
            0 <= i < rest.len() && (#[trigger] rest[i]).product_type.name@ == name
                && rest[i].output_on_tick(elapsed) > 0;
        assert(producers[i] == rest[i]);
    }
}

/// The producers as the ticks `ticks`, taken in order, leave them.
pub open spec fn ticked_over(producers: Seq<ProducerEntity>, ticks: Seq<u64>) -> Seq<
    ProducerEntity,
>
    decreases ticks.len(),
{
    if ticks.len() == 0 {
        producers
    } else {
        ticked(ticked_over(producers, ticks.drop_last()), ticks.last())
    }
}

/// The stock as the ticks `ticks`, taken in order, leave it.
pub open spec fn stocked_over(
    stock: Map<Seq<char>, nat>,
    producers: Seq<ProducerEntity>,
    ticks: Seq<u64>,
) -> Map<Seq<char>, nat>
    decreases ticks.len(),
{
    if ticks.len() == 0 {
        stock
    } else {
        stocked(
            stocked_over(stock, producers, ticks.drop_last()),
            ticked_over(producers, ticks.drop_last()),
            ticks.last(),
        )
    }
}

/// What the producers of the product `name` yield over the ticks `ticks`
/// when each is run by itself: the sum of their separate outputs.
pub open spec fn separate_output(
    producers: Seq<ProducerEntity>,
    name: Seq<char>,
    ticks: Seq<u64>,
) -> nat
    decreases producers.len(),
{
    if producers.len() == 0 {
        0
    } else {
        let last = producers.last();
        separate_output(producers.drop_last(), name, ticks) + if last.product_type.name@ == name {
            last.output_over(ticks)
        } else {
            0
        }
    }
}

/// In an engine every producer runs as it would by itself: after any run of
/// ticks, each stands where the same ticks leave it when it is ticked alone.
pub proof fn lemma_producers_run_alone(producers: Seq<ProducerEntity>, ticks: Seq<u64>)
    ensures
        ticked_over(producers, ticks).len() == producers.len(),
        forall|i: int|
            0 <= i < producers.len() ==> (#[trigger] ticked_over(producers, ticks)[i])
                == producers[i].after_ticks(ticks),
    decreases ticks.len(),
{
    if ticks.len() > 0 {
        lemma_producers_run_alone(producers, ticks.drop_last());
    }
}

/// One tick in the middle of a run: what the producers of a product yield in
/// it, added to what each yielded alone before, is what each yields alone
/// over the run with that tick.
proof fn lemma_separate_output_grows(
    producers: Seq<ProducerEntity>,
    name: Seq<char>,
    ticks: Seq<u64>,
)
    requires
        ticks.len() > 0,
    ensures
        separate_output(producers, name, ticks) == separate_output(
            producers,
            name,
            ticks.drop_last(),
        ) + gain(ticked_over(producers, ticks.drop_last()), name, ticks.last()),
    decreases producers.len(),
{
    let earlier = ticks.drop_last();
    if producers.len() > 0 {
        let rest = producers.drop_last();
        lemma_separate_output_grows(rest, name, ticks);
        lemma_producers_run_alone(producers, earlier);
        lemma_producers_run_alone(rest, earlier);
        assert(ticked_over(producers, earlier).drop_last() =~= ticked_over(rest, earlier));
        assert(ticked_over(producers, earlier).last() == producers.last().after_ticks(earlier));
        producers.last().lemma_keeps_product(earlier);
    } else {
        lemma_producers_run_alone(producers, earlier);
        assert(ticked_over(producers, earlier) =~= Seq::<ProducerEntity>::empty());
    }
}

/// After any run of ticks, the stock of a product is what was there before
/// and the sum of what each of its producers yields over the same ticks when
/// run by itself. Producers that share a product add up in its stock, and
/// nothing else reaches it.
pub proof fn lemma_stock_is_sum_of_separate_outputs(
    stock: Map<Seq<char>, nat>,
    producers: Seq<ProducerEntity>,
    name: Seq<char>,
    ticks: Seq<u64>,
)
    ensures
        amount(stocked_over(stock, producers, ticks), name) == amount(stock, name)
            + separate_output(producers, name, ticks),
    decreases ticks.len(),
{
    if ticks.len() > 0 {
        let earlier = ticks.drop_last();
        lemma_stock_is_sum_of_separate_outputs(stock, producers, name, earlier);
        lemma_separate_output_grows(producers, name, ticks);
        let held = stocked_over(stock, producers, earlier);
        let at_work = ticked_over(producers, earlier);
        assert(stocked_over(stock, producers, ticks) == stocked(held, at_work, ticks.last()));
        assert(amount(stocked(held, at_work, ticks.last()), name) == amount(held, name) + gain(
            at_work,
            name,
            ticks.last(),
        ));
    } else {
        assert(ticks =~= Seq::<u64>::empty());
        lemma_no_ticks_no_output(producers, name);
    }
}

/// Without ticks nothing is produced.
proof fn lemma_no_ticks_no_output(producers: Seq<ProducerEntity>, name: Seq<char>)
    ensures
        separate_output(producers, name, Seq::<u64>::empty()) == 0,
    decreases producers.len(),
{
    if producers.len() > 0 {
        lemma_no_ticks_no_output(producers.drop_last(), name);
    }
}

/// What the producers yield over the ticks `ticks` when each is run by
/// itself, all products together.
pub open spec fn sum_of_outputs(producers: Seq<ProducerEntity>, ticks: Seq<u64>) -> nat
    decreases producers.len(),
{
    if producers.len() == 0 {
        0
    } else {
        sum_of_outputs(producers.drop_last(), ticks) + producers.last().output_over(ticks)
    }
}

/// Producers that all make one product fill one stock: after any run of
/// ticks it holds what it held before and the sum of what each producer
/// yields over the same ticks when run by itself.
pub proof fn lemma_shared_product_adds_up(
    stock: Map<Seq<char>, nat>,
    producers: Seq<ProducerEntity>,
    name: Seq<char>,
    ticks: Seq<u64>,
)
    requires
        forall|i: int|
            0 <= i < producers.len() ==> (#[trigger] producers[i]).product_type.name@ == name,
    ensures
        amount(stocked_over(stock, producers, ticks), name) == amount(stock, name)
            + sum_of_outputs(producers, ticks),
        separate_output(producers, name, ticks) == sum_of_outputs(producers, ticks),
    decreases producers.len(),
{
    lemma_stock_is_sum_of_separate_outputs(stock, producers, name, ticks);
    if producers.len() > 0 {
        let rest = producers.drop_last();
        assert forall|i: int| 0 <= i < rest.len() implies (#[trigger] rest[i]).product_type.name@
            == name by {
            assert(rest[i] == producers[i]);
        }
        lemma_shared_product_adds_up(stock, rest, name, ticks);
        assert(producers.last() == producers[producers.len() - 1]);
    }
}

/// A producer of another product adds nothing to this one: with or without
/// it, the producers of `name` yield the same.
pub proof fn lemma_separate_output_skips_other_products(
    producers: Seq<ProducerEntity>,
    other: int,
    name: Seq<char>,
    ticks: Seq<u64>,
)
    requires
        0 <= other < producers.len(),
        producers[other].product_type.name@ != name,
    ensures
        separate_output(producers, name, ticks) == separate_output(
            producers.remove(other),
            name,
            ticks,
        ),
    decreases producers.len(),
{
    if other == producers.len() - 1 {
        assert(producers.remove(other) =~= producers.drop_last());
    } else {
        lemma_separate_output_skips_other_products(producers.drop_last(), other, name, ticks);
        assert(producers.remove(other).drop_last() =~= producers.drop_last().remove(other));
        assert(producers.remove(other).last() == producers.last());
    }
}

/// Products do not mix: a producer of another product changes nothing in the
/// stock of `name`. Whatever the ticks, that stock is the same with the
/// producer registered and without it.
pub proof fn lemma_products_do_not_mix(
    stock: Map<Seq<char>, nat>,
    producers: Seq<ProducerEntity>,
    other: int,
    name: Seq<char>,
    ticks: Seq<u64>,
)
    requires
        0 <= other < producers.len(),
        producers[other].product_type.name@ != name,
    ensures
        amount(stocked_over(stock, producers, ticks), name) == amount(
            stocked_over(stock, producers.remove(other), ticks),
            name,
        ),
{
    lemma_stock_is_sum_of_separate_outputs(stock, producers, name, ticks);
    lemma_stock_is_sum_of_separate_outputs(stock, producers.remove(other), name, ticks);
    lemma_separate_output_skips_other_products(producers, other, name, ticks);
}

/// Two producers of two different products each fill their own stock: after
/// any run of ticks, each product holds what it held before and what its own
/// producer yields alone.
pub proof fn lemma_two_products_stay_apart(
    stock: Map<Seq<char>, nat>,
    first: ProducerEntity,
    second: ProducerEntity,
    ticks: Seq<u64>,
)
    requires
        first.product_type.name@ != second.product_type.name@,
    ensures
        amount(stocked_over(stock, seq![first, second], ticks), first.product_type.name@)
            == amount(stock, first.product_type.name@) + first.output_over(ticks),
        amount(stocked_over(stock, seq![first, second], ticks), second.product_type.name@)
            == amount(stock, second.product_type.name@) + second.output_over(ticks),
{
    let both = seq![first, second];
    lemma_stock_is_sum_of_separate_outputs(stock, both, first.product_type.name@, ticks);
    lemma_stock_is_sum_of_separate_outputs(stock, both, second.product_type.name@, ticks);
    assert(both.drop_last() =~= seq![first]);
    assert(seq![first].drop_last() =~= Seq::<ProducerEntity>::empty());
    assert(both.last() == second);
    assert(seq![first].last() == first);
    reveal_with_fuel(separate_output, 3);
}

} // verus!
