use crate::continuum::engine::Engine;
use crate::continuum::entities::{ProducerEntity, ProductType};
use crate::continuum::roster::first_with_id;
use vstd::prelude::*;

verus! {

/// How many units make up one whole of a product, a cost or a value: the game
/// counts in hundredths.
pub const UNITS_PER_WHOLE: u64 = 100;

/// Twice `quantity`, or the largest quantity there is where twice is too much.
pub open spec fn doubled(quantity: u64) -> u64 {
    if quantity > u64::MAX / 2 {
        u64::MAX
    } else {
        (quantity * 2) as u64
    }
}

/// Whether `producer` is a gold mine as the game sets it up: a hundredth of
/// gold every second.
pub open spec fn is_gold_mine(producer: ProducerEntity) -> bool {
    &&& producer.id@ == "gold"@
    &&& producer.base_cost == 100
    &&& producer.cost_coefficient == 103
    &&& producer.product_type.name@ == "Gold"@
    &&& producer.product_type.production_quantity == 1
    &&& producer.product_type.value_per_unit == 100
    &&& producer.production_time_ms == 1000
    &&& producer.time_elapsed == 0
}

/// Whether `producer` is a wood cutter as the game sets it up: one log every
/// half second.
pub open spec fn is_wood_cutter(producer: ProducerEntity) -> bool {
    &&& producer.id@ == "wood"@
    &&& producer.base_cost == 100
    &&& producer.cost_coefficient == 104
    &&& producer.product_type.name@ == "Wood"@
    &&& producer.product_type.production_quantity == 100
    &&& producer.product_type.value_per_unit == 200
    &&& producer.production_time_ms == 500
    &&& producer.time_elapsed == 0
}

/// Whether `after` is `before` with the yield of the producer at `handle`
/// doubled.
pub open spec fn upgraded_at(
    before: Seq<ProducerEntity>,
    after: Seq<ProducerEntity>,
    handle: int,
) -> bool {
    &&& 0 <= handle < before.len()
    &&& after == before.update(
        handle,
        before[handle].with_production_quantity(
            doubled(before[handle].product_type.production_quantity),
        ),
    )
}

/// Whether `after` is `before` with one more producer at the end.
pub open spec fn one_added(before: Seq<ProducerEntity>, after: Seq<ProducerEntity>) -> bool {
    &&& after.len() == before.len() + 1
    &&& after.drop_last() == before
}

/// Doubles the yield of the first producer called as `template` is. If none
/// is called so, `template` is registered. Returns whether it was.
fn upgrade_or_add(engine: &mut Engine, template: ProducerEntity) -> (added: bool)
    requires
        template.is_valid(),
    ensures
        added == (first_with_id(old(engine).roster(), template.id@) >= old(engine).roster().len()),
        added ==> final(engine).roster() == old(engine).roster().push(template),
        !added ==> upgraded_at(
            old(engine).roster(),
            final(engine).roster(),
            first_with_id(old(engine).roster(), template.id@),
        ),
        final(engine).stock() == old(engine).stock(),
        final(engine).same_control(old(engine)),
{
    match engine.get_producer(template.id.as_str()) {
        Some(handle) => {
            let q = match engine.producer(handle) {
                Some(producer) => producer.production_quantity(),
                None => 0,
            };
            let twice = if q > u64::MAX / 2 {
                u64::MAX
            } else {
                q * 2
            };
            let _ = engine.set_production_quantity(handle, twice);
            false
        },
        None => {
            let _ = engine.add_producer(template);
            true
        },
    }
}

/// One more gold mine: the first press registers the producer `gold`, every
/// further one doubles what it yields.
pub fn add_gold_mine(engine: &mut Engine)
    ensures
        first_with_id(old(engine).roster(), "gold"@) < old(engine).roster().len() ==> upgraded_at(
            old(engine).roster(),
            final(engine).roster(),
            first_with_id(old(engine).roster(), "gold"@),
        ),
        first_with_id(old(engine).roster(), "gold"@) >= old(engine).roster().len() ==> one_added(
            old(engine).roster(),
            final(engine).roster(),
        ) && is_gold_mine(final(engine).roster().last()),
        final(engine).stock() == old(engine).stock(),
        final(engine).same_control(old(engine)),
{
    let producer = ProducerEntity {
        id: "gold".to_owned(),
        base_cost: 100,
        cost_coefficient: 103,
        product_type: ProductType {
            name: "Gold".to_owned(),
            production_quantity: 1,
            value_per_unit: 100,
        },
        production_time_ms: 1000,
        time_elapsed: 0,
    };
    let ghost before = engine.roster();
    let added = upgrade_or_add(engine, producer);
    proof {
        if added {
            assert(before.push(producer).drop_last() =~= before);
        }
    }
}

/// One more wood cutter: the first press registers the producer `wood`,
/// every further one doubles what it yields.
pub fn add_wood_cutter(engine: &mut Engine)
    ensures
        first_with_id(old(engine).roster(), "wood"@) < old(engine).roster().len() ==> upgraded_at(
            old(engine).roster(),
            final(engine).roster(),
            first_with_id(old(engine).roster(), "wood"@),
        ),
        first_with_id(old(engine).roster(), "wood"@) >= old(engine).roster().len() ==> one_added(
            old(engine).roster(),
            final(engine).roster(),
        ) && is_wood_cutter(final(engine).roster().last()),
        final(engine).stock() == old(engine).stock(),
        final(engine).same_control(old(engine)),
{
    let producer = ProducerEntity {
        id: "wood".to_owned(),
        base_cost: 100,
        cost_coefficient: 104,
        product_type: ProductType {
            name: "Wood".to_owned(),
            production_quantity: 100,
            value_per_unit: 200,
        },
        production_time_ms: 500,
        time_elapsed: 0,
    };
    let ghost before = engine.roster();
    let added = upgrade_or_add(engine, producer);
    proof {
        if added {
            assert(before.push(producer).drop_last() =~= before);
        }
    }
}

} // verus!
