use crate::continuum::entities::ProducerEntity;
use crate::continuum::text::same_text;
use vstd::prelude::*;

verus! {

/// Why a producer was turned away.
#[derive(Debug, Copy, Clone, PartialEq, Eq, Structural)]
pub enum ProducerError {
    /// The production cycle has no length.
    ZeroProductionTime,
    /// No producer stands under the handle.
    UnknownHandle,
}

/// Whether every producer of `producers` can be ticked.
pub open spec fn all_valid(producers: Seq<ProducerEntity>) -> bool {
    forall|i: int| 0 <= i < producers.len() ==> (#[trigger] producers[i]).is_valid()
}

/// The first place in `producers` that holds a producer called `id`, or the
/// length of `producers` if none is called so.
pub open spec fn first_with_id(producers: Seq<ProducerEntity>, id: Seq<char>) -> int
    decreases producers.len(),
{
    if producers.len() == 0 {
        0
    } else if producers[0].id@ == id {
        0
    } else {
        1 + first_with_id(producers.drop_first(), id)
    }
}

/// `first_with_id` names the first producer called `id`: none before it is
/// called so, and it is the length exactly when none is.
pub proof fn lemma_first_with_id(producers: Seq<ProducerEntity>, id: Seq<char>)
    ensures
        0 <= first_with_id(producers, id) <= producers.len(),
        first_with_id(producers, id) < producers.len() ==> producers[first_with_id(
            producers,
            id,
        )].id@ == id,
        forall|k: int|
            0 <= k < first_with_id(producers, id) ==> (#[trigger] producers[k]).id@ != id,
    decreases producers.len(),
{
    if producers.len() > 0 && producers[0].id@ != id {
        let rest = producers.drop_first();
        lemma_first_with_id(rest, id);
        assert forall|k: int| 0 <= k < first_with_id(producers, id) implies (
        #[trigger] producers[k]).id@ != id by {
            if k > 0 {
                assert(rest[k - 1] == producers[k]);
            }
        }
    }
}

/// The producers of an engine, in the order in which they were registered.
/// A producer's place is its handle; places never change.
#[derive(Debug)]
pub struct Roster {
    entries: Vec<ProducerEntity>,
}

impl View for Roster {
    type V = Seq<ProducerEntity>;

    closed spec fn view(&self) -> Seq<ProducerEntity> {
        self.entries@
    }
}

impl Roster {
    #[verifier::type_invariant]
    spec fn well_formed(&self) -> bool {
        all_valid(self.entries@)
    }

    /// A roster without producers.
    pub fn new() -> (roster: Roster)
        ensures
            roster@ == Seq::<ProducerEntity>::empty(),
    {
        Roster { entries: Vec::new() }
    }

    /// The number of producers. Every one of them can be ticked.
    pub fn len(&self) -> (len: usize)
        ensures
            len == self@.len(),
            all_valid(self@),
    {
        proof {
            use_type_invariant(self);
        }
        self.entries.len()
    }

    /// Registers `producer` behind the others, unless its production cycle
    /// has no length: then the roster stays as it was.
    pub fn push(&mut self, producer: ProducerEntity) -> (result: Result<usize, ProducerError>)
        ensures
            producer.is_valid() ==> result == Ok::<usize, ProducerError>(old(self)@.len() as usize)
                && final(self)@ == old(self)@.push(producer),
            !producer.is_valid() ==> result == Err::<usize, ProducerError>(
                ProducerError::ZeroProductionTime,
            ) && final(self)@ == old(self)@,
    {
        proof {
            use_type_invariant(&*self);
        }
        if producer.production_time_ms == 0 {
            return Err(ProducerError::ZeroProductionTime);
        }
        let mut taken = Roster { entries: Vec::new() };
        std::mem::swap(self, &mut taken);
        let Roster { entries } = taken;
        let mut entries = entries;
        let handle = entries.len();
        entries.push(producer);
        *self = Roster { entries };
        Ok(handle)
    }

    /// The handle of the first producer called `id`, if any is called so.
    pub fn find(&self, id: &str) -> (handle: Option<usize>)
        ensures
            handle is Some <==> first_with_id(self@, id@) < self@.len(),
            handle is Some ==> handle->0 == first_with_id(self@, id@),
            handle is Some ==> self@[handle->0 as int].id@ == id@,
            handle is None ==> forall|k: int|
                0 <= k < self@.len() ==> (#[trigger] self@[k]).id@ != id@,
    {
        proof {
            lemma_first_with_id(self.entries@, id@);
        }
        let mut i: usize = 0;
        while i < self.entries.len()
            invariant
                i <= self.entries.len(),
                i <= first_with_id(self.entries@, id@) <= self.entries@.len(),
                first_with_id(self.entries@, id@) < self.entries@.len()
                    ==> self.entries@[first_with_id(self.entries@, id@)].id@ == id@,
                forall|k: int|
                    0 <= k < first_with_id(self.entries@, id@) ==> (#[trigger] self.entries@[k]).id@
                        != id@,
            decreases self.entries.len() - i,
        {
            if same_text(self.entries[i].id.as_str(), id) {
                return Some(i);
            }
            i += 1;
        }
        None
    }

    /// The producer under `handle`, if there is one. It can be ticked.
    pub fn get(&self, handle: usize) -> (producer: Option<&ProducerEntity>)
        ensures
            producer is Some <==> handle < self@.len(),
            producer is Some ==> *producer->0 == self@[handle as int] && producer->0.is_valid(),
    {
        proof {
            use_type_invariant(self);
        }
        if handle < self.entries.len() {
            Some(&self.entries[handle])
        } else {
            None
        }
    }

    /// Ticks the producer under `handle` and returns what it produced.
    pub fn tick(&mut self, handle: usize, delta: u64) -> (produced: u64)
        requires
            handle < old(self)@.len(),
            old(self)@[handle as int].tick_fits(delta),
        ensures
            final(self)@ == old(self)@.update(
                handle as int,
                old(self)@[handle as int].after_tick(delta),
            ),
            produced == old(self)@[handle as int].output_on_tick(delta),
    {
        proof {
            use_type_invariant(&*self);
        }
        let mut taken = Roster { entries: Vec::new() };
        std::mem::swap(self, &mut taken);
        let Roster { entries } = taken;
        let mut entries = entries;
        let produced = entries[handle].on_tick(delta);
        *self = Roster { entries };
        produced
    }

    /// Sets the yield per cycle of the producer under `handle`.
    pub fn set_production_quantity(&mut self, handle: usize, quantity: u64) -> (result: Result<
        (),
        ProducerError,
    >)
        ensures
            handle < old(self)@.len() ==> result is Ok && final(self)@ == old(self)@.update(
                handle as int,
                old(self)@[handle as int].with_production_quantity(quantity),
            ),
            handle >= old(self)@.len() ==> result == Err::<(), ProducerError>(
                ProducerError::UnknownHandle,
            ) && final(self)@ == old(self)@,
    {
        proof {
            use_type_invariant(&*self);
        }
        if handle >= self.entries.len() {
            return Err(ProducerError::UnknownHandle);
        }
        let mut taken = Roster { entries: Vec::new() };
        std::mem::swap(self, &mut taken);
        let Roster { entries } = taken;
        let mut entries = entries;
        entries[handle].set_production_quantity(quantity);
        *self = Roster { entries };
        Ok(())
    }

    /// Sets the cycle length of the producer under `handle`. A cycle without
    /// length is turned away, and the producer keeps the cycle it had.
    pub fn set_production_time(&mut self, handle: usize, time_ms: u64) -> (result: Result<
        (),
        ProducerError,
    >)
        ensures
            handle < old(self)@.len() && time_ms > 0 ==> result is Ok && final(self)@ == old(self)@.update(
                handle as int,
                old(self)@[handle as int].with_production_time(time_ms),
            ),
            handle >= old(self)@.len() ==> result == Err::<(), ProducerError>(
                ProducerError::UnknownHandle,
            ) && final(self)@ == old(self)@,
            handle < old(self)@.len() && time_ms == 0 ==> result == Err::<(), ProducerError>(
                ProducerError::ZeroProductionTime,
            ) && final(self)@ == old(self)@,
    {
        proof {
            use_type_invariant(&*self);
        }
        if handle >= self.entries.len() {
            return Err(ProducerError::UnknownHandle);
        }
        if time_ms == 0 {
            return Err(ProducerError::ZeroProductionTime);
        }
        let mut taken = Roster { entries: Vec::new() };
        std::mem::swap(self, &mut taken);
        let Roster { entries } = taken;
        let mut entries = entries;
        entries[handle].set_production_time(time_ms);
        *self = Roster { entries };
        Ok(())
    }
}

} // verus!
