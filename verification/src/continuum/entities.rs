use vstd::arithmetic::div_mod::{
    lemma_fundamental_div_mod, lemma_fundamental_div_mod_converse, lemma_mod_bound,
};
use vstd::arithmetic::mul::lemma_mul_is_commutative;
use vstd::prelude::*;

verus! {

/// A kind of good.
///
/// The name is the key under which output is stocked: two product types with
/// the same name are the same product. Quantities are whole numbers of the
/// smallest unit in which the product is counted.
#[derive(Debug, Clone)]
pub struct ProductType {
    pub name: String,
    /// Units that one completed production cycle yields.
    pub production_quantity: u64,
    /// Worth of one unit. The simulation carries it along and never reads it.
    pub value_per_unit: u64,
}

/// A production unit: it turns elapsed time into output, one batch per
/// completed cycle, and carries the unused time over to the next tick.
#[derive(Debug, Clone)]
pub struct ProducerEntity {
    pub id: String,
    /// What the first unit of this producer costs. Carried along, never read.
    pub base_cost: u64,
    /// By how much the cost grows from one unit to the next. Carried along,
    /// never read.
    pub cost_coefficient: u64,
    pub product_type: ProductType,
    /// Length of one production cycle, in milliseconds. Zero is not a cycle.
    pub production_time_ms: u64,
    /// Time credited and not yet turned into output, in milliseconds.
    pub time_elapsed: u64,
}

/// Cycles that complete when `delta` is credited to an accumulator that holds
/// `time_elapsed`. The comparison is strict: an accumulator that lands exactly
/// on the cycle length releases nothing yet.
pub open spec fn cycles_due(time_elapsed: nat, production_time: nat, delta: nat) -> nat {
    if time_elapsed + delta > production_time {
        (time_elapsed + delta) / production_time
    } else {
        0
    }
}

/// What the accumulator holds after `delta` is credited and the completed
/// cycles are taken out.
pub open spec fn carry_after(time_elapsed: nat, production_time: nat, delta: nat) -> nat {
    (time_elapsed + delta - cycles_due(time_elapsed, production_time, delta)
        * production_time) as nat
}

/// The completed cycles never take out more time than was credited, and what
/// stays behind is either short of one cycle or the untouched total.
pub proof fn lemma_carry_bounds(time_elapsed: nat, production_time: nat, delta: nat)
    requires
        production_time > 0,
    ensures
        cycles_due(time_elapsed, production_time, delta) * production_time + carry_after(
            time_elapsed,
            production_time,
            delta,
        ) == time_elapsed + delta,
        time_elapsed + delta > production_time ==> carry_after(time_elapsed, production_time, delta)
            == (time_elapsed + delta) % production_time,
        time_elapsed + delta > production_time ==> carry_after(time_elapsed, production_time, delta)
            < production_time,
        time_elapsed + delta <= production_time ==> carry_after(time_elapsed, production_time, delta)
            == time_elapsed + delta,
{
    let total = (time_elapsed + delta) as int;
    let period = production_time as int;
    if total > period {
        lemma_fundamental_div_mod(total, period);
        lemma_mod_bound(total, period);
        lemma_mul_is_commutative(period, total / period);
    }
}

impl ProducerEntity {
    /// A producer can be ticked only if its cycle has a length.
    pub open spec fn is_valid(&self) -> bool {
        self.production_time_ms > 0
    }

    /// Cycles that a tick of `delta` milliseconds completes.
    pub open spec fn cycles_on_tick(&self, delta: u64) -> nat {
        cycles_due(self.time_elapsed as nat, self.production_time_ms as nat, delta as nat)
    }

    /// Units that a tick of `delta` milliseconds yields.
    pub open spec fn output_on_tick(&self, delta: u64) -> nat {
        self.cycles_on_tick(delta) * self.product_type.production_quantity as nat
    }

    /// Whether the yield of a tick of `delta` milliseconds can be counted in a `u64`.
    pub open spec fn tick_fits(&self, delta: u64) -> bool {
        self.output_on_tick(delta) <= u64::MAX
    }

    /// The producer as a tick of `delta` milliseconds leaves it: only the
    /// accumulator moves.
    pub open spec fn after_tick(self, delta: u64) -> ProducerEntity {
        ProducerEntity {
            time_elapsed: carry_after(
                self.time_elapsed as nat,
                self.production_time_ms as nat,
                delta as nat,
            ) as u64,
            ..self
        }
    }

    /// The producer with `quantity` as its yield per cycle.
    pub open spec fn with_production_quantity(self, quantity: u64) -> ProducerEntity {
        ProducerEntity {
            product_type: ProductType { production_quantity: quantity, ..self.product_type },
            ..self
        }
    }

    /// The producer with `time_ms` as the length of its cycle.
    pub open spec fn with_production_time(self, time_ms: u64) -> ProducerEntity {
        ProducerEntity { production_time_ms: time_ms, ..self }
    }

    pub fn id(&self) -> (id: &str)
        ensures
            id@ == self.id@,
    {
        self.id.as_str()
    }

    pub fn production_time(&self) -> (time_ms: u64)
        ensures
            time_ms == self.production_time_ms,
    {
        self.production_time_ms
    }

    /// Sets the length of the production cycle. The time already credited
    /// stays: if it exceeds the new length, the next tick turns it into output.
    pub fn set_production_time(&mut self, t: u64)
        ensures
            *final(self) == old(self).with_production_time(t),
    {
        self.production_time_ms = t
    }

    pub fn production_quantity(&self) -> (quantity: u64)
        ensures
            quantity == self.product_type.production_quantity,
    {
        self.product_type.production_quantity
    }

    pub fn set_production_quantity(&mut self, quantity: u64)
        ensures
            *final(self) == old(self).with_production_quantity(quantity),
    {
        self.product_type.production_quantity = quantity
    }

    pub fn product_type(&self) -> (product_type: &ProductType)
        ensures
            *product_type == self.product_type,
    {
        &self.product_type
    }

    /// What a tick of `delta` milliseconds would yield, without ticking:
    /// `None` where the yield is more than a `u64` can count.
    pub fn checked_output(&self, delta: u64) -> (output: Option<u64>)
        requires
            self.is_valid(),
        ensures
            output is Some <==> self.tick_fits(delta),
            output is Some ==> output->0 == self.output_on_tick(delta),
    {
        let total: u128 = self.time_elapsed as u128 + delta as u128;
        let period: u128 = self.production_time_ms as u128;
        let quantity: u128 = self.product_type.production_quantity as u128;
        let cycles: u128 = if total > period {
            total / period
        } else {
            0
        };
        let limit: u128 = u64::MAX as u128;
        let ghost output = self.output_on_tick(delta);
        assert(output == cycles * quantity) by (nonlinear_arith)
            requires
                cycles == self.cycles_on_tick(delta),
                output == self.cycles_on_tick(delta) * (quantity as nat),
        ;
        if quantity == 0 || cycles == 0 {
            assert(cycles * quantity == 0) by (nonlinear_arith)
                requires
                    quantity == 0 || cycles == 0,
            ;
            Some(0)
        } else if cycles > limit {
            assert(cycles * quantity > limit) by (nonlinear_arith)
                requires
                    cycles > limit,
                    quantity >= 1,
            ;
            None
        } else {
            assert(cycles * quantity <= 0xffff_ffff_ffff_ffff * 0xffff_ffff_ffff_ffff)
                by (nonlinear_arith)
                requires
                    cycles <= 0xffff_ffff_ffff_ffff,
                    quantity <= 0xffff_ffff_ffff_ffff,
            ;
            let product: u128 = cycles * quantity;
            if product > limit {
                None
            } else {
                Some(product as u64)
            }
        }
    }

    /// Credits `delta` milliseconds and returns the units produced: the yield
    /// of every cycle that the accumulated time completes. The time that
    /// completes no cycle stays in the accumulator.
    pub fn on_tick(&mut self, delta: u64) -> (produced: u64)
        requires
            old(self).is_valid(),
            old(self).tick_fits(delta),
        ensures
            *final(self) == old(self).after_tick(delta),
            produced == old(self).output_on_tick(delta),
            final(self).time_elapsed == carry_after(
                old(self).time_elapsed as nat,
                old(self).production_time_ms as nat,
                delta as nat,
            ),
    {
        proof {
            lemma_carry_bounds(
                self.time_elapsed as nat,
                self.production_time_ms as nat,
                delta as nat,
            );
        }
        let total: u128 = self.time_elapsed as u128 + delta as u128;
        let period: u128 = self.production_time_ms as u128;
        let quantity: u128 = self.product_type.production_quantity as u128;
        let cycles: u128 = if total > period {
            total / period
        } else {
            0
        };
        let ghost due = self.cycles_on_tick(delta);
        let ghost output = self.output_on_tick(delta);
        assert(cycles * quantity == output) by (nonlinear_arith)
            requires
                cycles == due,
                output == due * (quantity as nat),
        ;
        self.time_elapsed = if total > period {
            (total % period) as u64
        } else {
            total as u64
        };
        let produced: u128 = cycles * quantity;
        produced as u64
    }
}

/// The time that a run of ticks credits in all.
pub open spec fn total_time(deltas: Seq<u64>) -> nat
    decreases deltas.len(),
{
    if deltas.len() == 0 {
        0
    } else {
        total_time(deltas.drop_last()) + deltas.last() as nat
    }
}

impl ProducerEntity {
    /// The producer as the ticks `deltas`, taken in order, leave it.
    pub open spec fn after_ticks(self, deltas: Seq<u64>) -> ProducerEntity
        decreases deltas.len(),
    {
        if deltas.len() == 0 {
            self
        } else {
            self.after_ticks(deltas.drop_last()).after_tick(deltas.last())
        }
    }

    /// Cycles that the ticks `deltas` complete, all ticks together.
    pub open spec fn cycles_over(self, deltas: Seq<u64>) -> nat
        decreases deltas.len(),
    {
        if deltas.len() == 0 {
            0
        } else {
            self.cycles_over(deltas.drop_last()) + self.after_ticks(
                deltas.drop_last(),
            ).cycles_on_tick(deltas.last())
        }
    }

    /// Units that the ticks `deltas` yield, all ticks together.
    pub open spec fn output_over(self, deltas: Seq<u64>) -> nat
        decreases deltas.len(),
    {
        if deltas.len() == 0 {
            0
        } else {
            self.output_over(deltas.drop_last()) + self.after_ticks(
                deltas.drop_last(),
            ).output_on_tick(deltas.last())
        }
    }

    /// No tick loses time: the cycles completed and the time still in the
    /// accumulator always add up to the time the producer started with and
    /// the time credited since. The ticks change the accumulator and nothing
    /// else, and the yield is that of the completed cycles.
    pub proof fn lemma_time_is_conserved(self, deltas: Seq<u64>)
        requires
            self.is_valid(),
        ensures
            self.cycles_over(deltas) * self.production_time_ms + self.after_ticks(
                deltas,
            ).time_elapsed == self.time_elapsed + total_time(deltas),
            self.output_over(deltas) == self.cycles_over(deltas)
                * self.product_type.production_quantity,
            self.after_ticks(deltas) == (ProducerEntity {
                time_elapsed: self.after_ticks(deltas).time_elapsed,
                ..self
            }),
        decreases deltas.len(),
    {
        if deltas.len() > 0 {
            let earlier = deltas.drop_last();
            let delta = deltas.last();
            let then = self.after_ticks(earlier);
            self.lemma_time_is_conserved(earlier);
            lemma_carry_bounds(
                then.time_elapsed as nat,
                then.production_time_ms as nat,
                delta as nat,
            );
            let period = self.production_time_ms as int;
            let quantity = self.product_type.production_quantity as int;
            let before = self.cycles_over(earlier) as int;
            let now = then.cycles_on_tick(delta) as int;
            assert((before + now) * period == before * period + now * period)
                by (nonlinear_arith);
            assert((before + now) * quantity == before * quantity + now * quantity)
                by (nonlinear_arith);
        }
    }

    /// Ticks leave the product, the identifier and the cycle as they are.
    pub proof fn lemma_keeps_product(self, deltas: Seq<u64>)
        ensures
            self.after_ticks(deltas) == (ProducerEntity {
                time_elapsed: self.after_ticks(deltas).time_elapsed,
                ..self
            }),
        decreases deltas.len(),
    {
        if deltas.len() > 0 {
            self.lemma_keeps_product(deltas.drop_last());
        }
    }

    /// The yield of a run of ticks depends on the time credited in all, not
    /// on how the ticks divide it: whenever the ticks leave less than one
    /// full cycle in the accumulator, the completed cycles are the whole
    /// cycles in the total time, and the accumulator holds the remainder.
    pub proof fn lemma_output_follows_total_time(self, deltas: Seq<u64>)
        requires
            self.is_valid(),
            self.after_ticks(deltas).time_elapsed < self.production_time_ms,
        ensures
            self.cycles_over(deltas) == (self.time_elapsed + total_time(deltas))
                / self.production_time_ms as int,
            self.output_over(deltas) == ((self.time_elapsed + total_time(deltas))
                / self.production_time_ms as int) * self.product_type.production_quantity,
            self.after_ticks(deltas).time_elapsed == (self.time_elapsed + total_time(deltas))
                % self.production_time_ms as int,
    {
        self.lemma_time_is_conserved(deltas);
        lemma_fundamental_div_mod_converse(
            self.time_elapsed + total_time(deltas),
            self.production_time_ms as int,
            self.cycles_over(deltas) as int,
            self.after_ticks(deltas).time_elapsed as int,
        );
    }

    /// Two runs of ticks that credit the same time in all, each leaving less
    /// than one full cycle in the accumulator, yield the same and leave the
    /// producer in the same state.
    pub proof fn lemma_partition_does_not_matter(self, first: Seq<u64>, second: Seq<u64>)
        requires
            self.is_valid(),
            total_time(first) == total_time(second),
            self.after_ticks(first).time_elapsed < self.production_time_ms,
            self.after_ticks(second).time_elapsed < self.production_time_ms,
        ensures
            self.cycles_over(first) == self.cycles_over(second),
            self.output_over(first) == self.output_over(second),
            self.after_ticks(first) == self.after_ticks(second),
    {
        self.lemma_output_follows_total_time(first);
        self.lemma_output_follows_total_time(second);
        self.lemma_time_is_conserved(first);
        self.lemma_time_is_conserved(second);
    }

    /// A run of ticks that leaves the accumulator exactly on the cycle length
    /// holds one cycle back: the strict comparison releases it only with the
    /// next millisecond.
    pub proof fn lemma_output_at_cycle_boundary(self, deltas: Seq<u64>)
        requires
            self.is_valid(),
            self.after_ticks(deltas).time_elapsed == self.production_time_ms,
        ensures
            self.cycles_over(deltas) + 1 == (self.time_elapsed + total_time(deltas))
                / self.production_time_ms as int,
            (self.time_elapsed + total_time(deltas)) % self.production_time_ms as int == 0,
    {
        self.lemma_time_is_conserved(deltas);
        let period = self.production_time_ms as int;
        let cycles = self.cycles_over(deltas) as int;
        assert((cycles + 1) * period == cycles * period + period) by (nonlinear_arith);
        lemma_fundamental_div_mod_converse(
            self.time_elapsed + total_time(deltas),
            period,
            cycles + 1,
            0,
        );
    }

    /// A producer that starts with no more than one cycle in its accumulator
    /// never holds more than one cycle after a tick.
    pub proof fn lemma_carry_stays_within_cycle(self, deltas: Seq<u64>)
        requires
            self.is_valid(),
            self.time_elapsed <= self.production_time_ms,
        ensures
            self.after_ticks(deltas).time_elapsed <= self.production_time_ms,
        decreases deltas.len(),
    {
        if deltas.len() > 0 {
            let then = self.after_ticks(deltas.drop_last());
            self.lemma_carry_stays_within_cycle(deltas.drop_last());
            self.lemma_time_is_conserved(deltas.drop_last());
            lemma_carry_bounds(
                then.time_elapsed as nat,
                then.production_time_ms as nat,
                deltas.last() as nat,
            );
        }
    }
}

} // verus!
