use crate::continuum::entities::ProducerEntity;
use crate::continuum::inventory::{amount, Inventory};
use crate::continuum::lifecycle::{ConsumerAction, Lifecycle, StopPlan};
use crate::continuum::production::{
    gain, lemma_gain_has_source, lemma_gain_of_next, lemma_gain_of_prefix, lemma_stocked_of_next,
    stocked, tick_fits, ticked,
};
use crate::continuum::roster::{all_valid, first_with_id, ProducerError, Roster};
use crate::continuum::text::same_text;
use crate::continuum::timer::{Timer, TimerAction, TimerState};
use vstd::prelude::*;

verus! {

/// Defines the configuration for an instance of `Engine`
#[derive(Debug, Copy, Clone)]
pub struct EngineConfig {
    pub tick_timeout_ms: u64,
}

/// Everything that the engine's lock guards: the timer, the producers and the
/// stock that they have built up.
#[derive(Debug)]
pub struct EngineInner {
    config: EngineConfig,
    timer: Timer,
    consumer_task: bool,
    producers: Roster,
    products: Inventory,
}

impl EngineInner {
    /// The registered producers, in the order of their handles.
    pub closed spec fn roster(&self) -> Seq<ProducerEntity> {
        self.producers@
    }

    /// The stock: for each product that was ever produced, its quantity.
    pub closed spec fn stock(&self) -> Map<Seq<char>, nat> {
        self.products@
    }

    pub closed spec fn timer_state_spec(&self) -> TimerState {
        self.timer.state_spec()
    }

    /// Whether the timer's background task is attached.
    pub closed spec fn timer_attached(&self) -> bool {
        self.timer.task_attached()
    }

    /// Whether the task that consumes the ticks is attached.
    pub closed spec fn consumer_attached(&self) -> bool {
        self.consumer_task
    }

    /// The time between two ticks that the timer was made with.
    pub closed spec fn tick_interval(&self) -> u64 {
        self.timer.interval_ms()
    }

    pub closed spec fn config(&self) -> EngineConfig {
        self.config
    }

    /// Whether `other` differs from `self` in nothing but producers and stock.
    pub open spec fn same_control(&self, other: &EngineInner) -> bool {
        &&& self.timer_state_spec() == other.timer_state_spec()
        &&& self.timer_attached() == other.timer_attached()
        &&& self.consumer_attached() == other.consumer_attached()
        &&& self.tick_interval() == other.tick_interval()
        &&& self.config() == other.config()
    }

    /// The state of an engine at rest: no producers, no stock, the timer
    /// stopped and no task attached.
    pub fn new(config: EngineConfig) -> (inner: EngineInner)
        ensures
            inner.roster() == Seq::<ProducerEntity>::empty(),
            inner.stock() == Map::<Seq<char>, nat>::empty(),
            inner.timer_state_spec() == TimerState::Stopped,
            !inner.timer_attached(),
            !inner.consumer_attached(),
            inner.tick_interval() == config.tick_timeout_ms,
            inner.config() == config,
    {
        EngineInner {
            config,
            timer: Timer::new(config.tick_timeout_ms),
            consumer_task: false,
            producers: Roster::new(),
            products: Inventory::new(),
        }
    }

    /// This method is called to progress all entities by a tick
    /// A tick is expressed as a unit of elapsed time since the last tick and the `elapsed` value
    /// allows each entity to calculate how much progress it has made since the last tick.
    pub fn process_tick(&mut self, elapsed: u64)
        requires
            tick_fits(old(self).stock(), old(self).roster(), elapsed),
        ensures
            final(self).roster() == ticked(old(self).roster(), elapsed),
            final(self).stock() == stocked(old(self).stock(), old(self).roster(), elapsed),
            final(self).same_control(old(self)),
    {
        let ghost before = self.producers@;
        let ghost stock = self.products@;
        let count = self.producers.len();
        let mut i: usize = 0;
        proof {
            assert(before.take(0) =~= Seq::<ProducerEntity>::empty());
            assert(stocked(stock, before.take(0), elapsed) =~= stock);
        }
        while i < count
            invariant
                i <= count,
                count == before.len(),
                all_valid(before),
                tick_fits(stock, before, elapsed),
                self.producers@.len() == before.len(),
                forall|k: int| 0 <= k < i ==> self.producers@[k] == before[k].after_tick(elapsed),
                forall|k: int| i <= k < count ==> self.producers@[k] == before[k],
                self.products@ == stocked(stock, before.take(i as int), elapsed),
                self.same_control(old(self)),
            decreases count - i,
        {
            let ghost name = before[i as int].product_type.name@;
            proof {
                lemma_gain_of_next(before, name, elapsed, i as int);
                lemma_gain_of_prefix(before, name, elapsed, i + 1);
                assert(amount(stock, name) + gain(before, name, elapsed) <= u64::MAX);
            }
            let q = self.producers.tick(i, elapsed);
            // if anything was produced, allocate it to the relevant production 'bucket'
            if q > 0 {
                let product_name = match self.producers.get(i) {
                    Some(producer) => producer.product_type.name.clone(),
                    None => String::new(),
                };
                let pq = match self.products.get(product_name.as_str()) {
                    Some(v) => v,
                    None => 0,
                };
                self.products.insert(product_name, pq + q);
            }
            proof {
                lemma_stocked_of_next(stock, before, elapsed, i as int);
            }
            i += 1;
        }
        proof {
            assert(before.take(count as int) =~= before);
            assert(self.producers@ =~= ticked(before, elapsed));
        }
    }

    /// Whether the next tick of `elapsed` milliseconds can be processed: the
    /// stock it leads to can be counted.
    pub fn can_process_tick(&self, elapsed: u64) -> (fits: bool)
        ensures
            fits == tick_fits(self.stock(), self.roster(), elapsed),
    {
        let count = self.producers.len();
        let ghost producers = self.producers@;
        let ghost stock = self.products@;
        let mut i: usize = 0;
        while i < count
            invariant
                i <= count,
                count == producers.len(),
                producers == self.producers@,
                stock == self.products@,
                all_valid(producers),
                forall|k: int|
                    0 <= k < i ==> amount(stock, (#[trigger] producers[k]).product_type.name@)
                        + gain(producers, producers[k].product_type.name@, elapsed) <= u64::MAX,
            decreases count - i,
        {
            let fits = match self.producers.get(i) {
                Some(producer) => self.product_fits(producer.product_type.name.as_str(), elapsed),
                None => true,
            };
            if !fits {
                return false;
            }
            i += 1;
        }
        proof {
            assert forall|name: Seq<char>|
                amount(stock, name) + #[trigger] gain(producers, name, elapsed) <= u64::MAX by {
                if gain(producers, name, elapsed) > 0 {
                    lemma_gain_has_source(producers, name, elapsed);
                    let k = choose|k: int|
                        0 <= k < producers.len() && (#[trigger] producers[k]).product_type.name@
                            == name && producers[k].output_on_tick(elapsed) > 0;
                    assert(amount(stock, producers[k].product_type.name@) + gain(
                        producers,
                        producers[k].product_type.name@,
                        elapsed,
                    ) <= u64::MAX);
                } else {
                    self.products.lemma_bounded();
                    assert(amount(stock, name) <= u64::MAX);
                }
            }
        }
        true
    }

    /// Whether the stock of the product `name` after a tick of `elapsed`
    /// milliseconds can be counted in a `u64`.
    fn product_fits(&self, name: &str, elapsed: u64) -> (fits: bool)
        ensures
            fits == (amount(self.stock(), name@) + gain(self.roster(), name@, elapsed) <= u64::MAX),
    {
        let count = self.producers.len();
        let ghost producers = self.producers@;
        let ghost stock = self.products@;
        let mut total: u64 = match self.products.get(name) {
            Some(v) => v,
            None => 0,
        };
        let mut j: usize = 0;
        proof {
            assert(producers.take(0) =~= Seq::<ProducerEntity>::empty());
        }
        while j < count
            invariant
                j <= count,
                count == producers.len(),
                producers == self.producers@,
                stock == self.products@,
                all_valid(producers),
                total == amount(stock, name@) + gain(producers.take(j as int), name@, elapsed),
            decreases count - j,
        {
            proof {
                lemma_gain_of_next(producers, name@, elapsed, j as int);
                lemma_gain_of_prefix(producers, name@, elapsed, j + 1);
            }
            match self.producers.get(j) {
                Some(producer) => {
                    if same_text(producer.product_type.name.as_str(), name) {
                        match producer.checked_output(elapsed) {
                            Some(output) => {
                                if output > u64::MAX - total {
                                    return false;
                                }
                                total = total + output;
                            },
                            None => {
                                return false;
                            },
                        }
                    }
                },
                None => {},
            }
            j += 1;
        }
        proof {
            assert(producers.take(count as int) =~= producers);
        }
        true
    }

    /// Registers a producer and returns its handle. A producer whose cycle
    /// has no length is turned away, and nothing changes.
    pub fn add_producer(&mut self, producer: ProducerEntity) -> (result: Result<
        usize,
        ProducerError,
    >)
        ensures
            producer.is_valid() ==> result == Ok::<usize, ProducerError>(
                old(self).roster().len() as usize,
            ) && final(self).roster() == old(self).roster().push(producer),
            !producer.is_valid() ==> result == Err::<usize, ProducerError>(
                ProducerError::ZeroProductionTime,
            ) && final(self).roster() == old(self).roster(),
            final(self).stock() == old(self).stock(),
            final(self).same_control(old(self)),
    {
        self.producers.push(producer)
    }

    /// The handle of the first producer registered under `id`, or `None` if
    /// no producer has that identifier.
    pub fn get_producer(&self, id: &str) -> (handle: Option<usize>)
        ensures
            handle is Some <==> first_with_id(self.roster(), id@) < self.roster().len(),
            handle is Some ==> handle->0 == first_with_id(self.roster(), id@),
            handle is Some ==> self.roster()[handle->0 as int].id@ == id@,
            handle is None ==> forall|k: int|
                0 <= k < self.roster().len() ==> (#[trigger] self.roster()[k]).id@ != id@,
    {
        self.producers.find(id)
    }

    /// The producer under `handle`, if there is one.
    pub fn producer(&self, handle: usize) -> (producer: Option<&ProducerEntity>)
        ensures
            producer is Some <==> handle < self.roster().len(),
            producer is Some ==> *producer->0 == self.roster()[handle as int]
                && producer->0.is_valid(),
    {
        self.producers.get(handle)
    }

    /// Sets the yield per cycle of the producer under `handle`.
    pub fn set_production_quantity(&mut self, handle: usize, quantity: u64) -> (result: Result<
        (),
        ProducerError,
    >)
        ensures
            handle < old(self).roster().len() ==> result is Ok
                && final(self).roster() == old(self).roster().update(
                handle as int,
                old(self).roster()[handle as int].with_production_quantity(quantity),
            ),
            handle >= old(self).roster().len() ==> result == Err::<(), ProducerError>(
                ProducerError::UnknownHandle,
            ) && final(self).roster() == old(self).roster(),
            final(self).stock() == old(self).stock(),
            final(self).same_control(old(self)),
    {
        self.producers.set_production_quantity(handle, quantity)
    }

    /// Sets the cycle length of the producer under `handle`. A cycle without
    /// length is turned away.
    pub fn set_production_time(&mut self, handle: usize, time_ms: u64) -> (result: Result<
        (),
        ProducerError,
    >)
        ensures
            handle < old(self).roster().len() && time_ms > 0 ==> result is Ok
                && final(self).roster() == old(self).roster().update(
                handle as int,
                old(self).roster()[handle as int].with_production_time(time_ms),
            ),
            handle >= old(self).roster().len() ==> result == Err::<(), ProducerError>(
                ProducerError::UnknownHandle,
            ) && final(self).roster() == old(self).roster(),
            handle < old(self).roster().len() && time_ms == 0 ==> result == Err::<
                (),
                ProducerError,
            >(ProducerError::ZeroProductionTime) && final(self).roster() == old(self).roster(),
            final(self).stock() == old(self).stock(),
            final(self).same_control(old(self)),
    {
        self.producers.set_production_time(handle, time_ms)
    }

    /// A copy of the stock as it stands.
    pub fn get_products(&self) -> (snapshot: Inventory)
        ensures
            snapshot@ == self.stock(),
    {
        self.products.snapshot()
    }

    /// Starts the timer and returns the interval at which its background
    /// task has to tick. Only a stopped timer can be started.
    pub fn start_timer(&mut self) -> (interval_ms: u64)
        requires
            old(self).timer_state_spec() == TimerState::Stopped,
        ensures
            final(self).timer_state_spec() == TimerState::Running,
            final(self).timer_attached(),
            interval_ms == old(self).tick_interval(),
            final(self).tick_interval() == old(self).tick_interval(),
            final(self).consumer_attached() == old(self).consumer_attached(),
            final(self).config() == old(self).config(),
            final(self).roster() == old(self).roster(),
            final(self).stock() == old(self).stock(),
    {
        self.timer.start()
    }

    /// Stops the timer. Returns whether its background task has to be waited
    /// for.
    pub fn stop_timer(&mut self) -> (join: bool)
        ensures
            final(self).timer_state_spec() == TimerState::Stopped,
            !final(self).timer_attached(),
            join == old(self).timer_attached(),
            old(self).timer_state_spec() == TimerState::Running ==> join,
            final(self).tick_interval() == old(self).tick_interval(),
            final(self).consumer_attached() == old(self).consumer_attached(),
            final(self).config() == old(self).config(),
            final(self).roster() == old(self).roster(),
            final(self).stock() == old(self).stock(),
    {
        self.timer.stop()
    }

    #[verifier::when_used_as_spec(timer_state_spec)]
    pub fn timer_state(&self) -> (state: TimerState)
        ensures
            state == self.timer_state_spec(),
            state == TimerState::Running ==> self.timer_attached(),
    {
        self.timer.state()
    }
}

/// The simulation core: a timer, the producers that its ticks drive, and the
/// stock that they build up.
///
/// The engine decides and keeps the books; it starts no task and waits for
/// none. Whoever embeds it shares it behind a lock, runs the timer's task
/// and the consumer's task as the engine tells them, and waits for them as
/// [`Engine::stop`] says.
#[derive(Debug)]
pub struct Engine {
    inner: EngineInner,
}

impl Engine {
    /// While the timer runs, both background tasks are attached.
    #[verifier::type_invariant]
    spec fn tasks_attached_while_running(&self) -> bool {
        self.lifecycle().coherent()
    }

    /// Takes the guarded state out and leaves an engine at rest in its place.
    fn take(&mut self) -> (inner: EngineInner)
        ensures
            inner == old(self).inner,
    {
        let mut rest = Engine::new(self.inner.config);
        std::mem::swap(self, &mut rest);
        let Engine { inner } = rest;
        inner
    }

    /// The registered producers, in the order of their handles.
    pub closed spec fn roster(&self) -> Seq<ProducerEntity> {
        self.inner.roster()
    }

    /// The stock: for each product that was ever produced, its quantity.
    pub closed spec fn stock(&self) -> Map<Seq<char>, nat> {
        self.inner.stock()
    }

    pub closed spec fn lifecycle(&self) -> Lifecycle {
        Lifecycle {
            state: self.inner.timer_state_spec(),
            timer_task: self.inner.timer_attached(),
            consumer_task: self.inner.consumer_attached(),
        }
    }

    /// The time between two ticks, in milliseconds.
    pub closed spec fn tick_interval(&self) -> u64 {
        self.inner.tick_interval()
    }

    pub closed spec fn config(&self) -> EngineConfig {
        self.inner.config()
    }

    /// Whether `other` differs from `self` in nothing but producers and stock.
    pub open spec fn same_control(&self, other: &Engine) -> bool {
        &&& self.lifecycle() == other.lifecycle()
        &&& self.tick_interval() == other.tick_interval()
        &&& self.config() == other.config()
    }

    /// Whether `other` has the producers and the stock of `self`.
    pub open spec fn same_books(&self, other: &Engine) -> bool {
        &&& self.roster() == other.roster()
        &&& self.stock() == other.stock()
        &&& self.tick_interval() == other.tick_interval()
        &&& self.config() == other.config()
    }

    /// An engine at rest: no producers, no stock, the timer stopped.
    pub fn new(config: EngineConfig) -> (engine: Engine)
        ensures
            engine.roster() == Seq::<ProducerEntity>::empty(),
            engine.stock() == Map::<Seq<char>, nat>::empty(),
            engine.lifecycle() == Lifecycle::idle(),
            engine.tick_interval() == config.tick_timeout_ms,
            engine.config() == config,
    {
        Engine { inner: EngineInner::new(config) }
    }

    /// Starts the engine and returns the interval of its ticks. The caller
    /// then starts the two background tasks: the timer's, which follows
    /// [`Engine::timer_action`], and the consumer's, which follows
    /// [`Engine::consumer_action`]. Only a stopped engine can be started.
    pub fn start(&mut self) -> (interval_ms: u64)
        requires
            old(self).lifecycle().state == TimerState::Stopped,
        ensures
            final(self).lifecycle() == old(self).lifecycle().after_start(),
            interval_ms == old(self).tick_interval(),
            final(self).same_books(old(self)),
    {
        let mut inner = self.take();
        let interval_ms = inner.start_timer();
        inner.consumer_task = true;
        *self = Engine { inner };
        interval_ms
    }

    /// Stops the engine and returns which background tasks the caller has to
    /// wait for. A running timer is stopped and its task handed over; the
    /// consumer's task is handed over whenever there is one. An engine that
    /// was running hands over both, and both end at their next step.
    pub fn stop(&mut self) -> (plan: StopPlan)
        ensures
            plan == old(self).lifecycle().stop_plan(),
            final(self).lifecycle() == old(self).lifecycle().after_stop(),
            final(self).same_books(old(self)),
            old(self).lifecycle().state == TimerState::Running ==> plan == (StopPlan {
                join_timer: true,
                join_consumer: true,
            }) && final(self).lifecycle() == Lifecycle::idle(),
    {
        proof {
            use_type_invariant(&*self);
        }
        let mut inner = self.take();
        let join_timer = if inner.timer_state() == TimerState::Running {
            inner.stop_timer()
        } else {
            false
        };
        let join_consumer = inner.consumer_task;
        inner.consumer_task = false;
        *self = Engine { inner };
        StopPlan { join_timer, join_consumer }
    }

    /// The state of the engine's timer. While it runs, both background tasks
    /// are attached.
    pub fn timer_state(&self) -> (state: TimerState)
        ensures
            state == self.lifecycle().state,
            self.lifecycle().coherent(),
    {
        proof {
            use_type_invariant(self);
        }
        self.inner.timer_state()
    }

    /// The next step of the timer's background task.
    pub fn timer_action(&self) -> (action: TimerAction)
        ensures
            action == Timer::action_in(self.lifecycle().state, self.tick_interval()),
    {
        self.inner.timer.next_action()
    }

    /// Takes note of how the timer's task fared with a tick: one that nobody
    /// received stops the timer.
    pub fn on_send(&mut self, delivered: bool)
        ensures
            final(self).lifecycle() == old(self).lifecycle().after_send(delivered),
            final(self).same_books(old(self)),
    {
        proof {
            use_type_invariant(&*self);
        }
        let mut inner = self.take();
        inner.timer.on_send(delivered);
        *self = Engine { inner };
    }

    /// The next step of the consumer's background task, taken before each
    /// wait: it goes on while the timer runs.
    pub fn consumer_action(&self) -> (action: ConsumerAction)
        ensures
            action == self.lifecycle().consumer_action(),
    {
        match self.inner.timer_state() {
            TimerState::Running => ConsumerAction::AwaitTick,
            TimerState::Stopped => ConsumerAction::Exit,
        }
    }

    /// Takes what the consumer's wait brought: the elapsed milliseconds of a
    /// tick, or `None` once the channel is closed. A tick is processed and
    /// the task goes on. The task ends, with nothing changed, when the
    /// channel is closed or when the stock that the tick leads to can no
    /// longer be counted.
    pub fn on_received(&mut self, received: Option<u64>) -> (keep_going: bool)
        ensures
            keep_going == (received is Some && tick_fits(
                old(self).stock(),
                old(self).roster(),
                received->0,
            )),
            keep_going ==> final(self).roster() == ticked(old(self).roster(), received->0)
                && final(self).stock() == stocked(
                old(self).stock(),
                old(self).roster(),
                received->0,
            ),
            !keep_going ==> final(self).roster() == old(self).roster() && final(self).stock()
                == old(self).stock(),
            final(self).same_control(old(self)),
    {
        match received {
            Some(elapsed) => {
                if self.inner.can_process_tick(elapsed) {
                    self.process_tick(elapsed);
                    true
                } else {
                    false
                }
            },
            None => false,
        }
    }

    /// Whether a tick of `elapsed` milliseconds can be processed: the stock
    /// that it leads to can be counted.
    pub fn can_process_tick(&self, elapsed: u64) -> (fits: bool)
        ensures
            fits == tick_fits(self.stock(), self.roster(), elapsed),
    {
        self.inner.can_process_tick(elapsed)
    }

    /// Ticks every producer by `elapsed` milliseconds and stocks what they
    /// produce.
    pub fn process_tick(&mut self, elapsed: u64)
        requires
            tick_fits(old(self).stock(), old(self).roster(), elapsed),
        ensures
            final(self).roster() == ticked(old(self).roster(), elapsed),
            final(self).stock() == stocked(old(self).stock(), old(self).roster(), elapsed),
            final(self).same_control(old(self)),
    {
        proof {
            use_type_invariant(&*self);
        }
        let mut inner = self.take();
        inner.process_tick(elapsed);
        *self = Engine { inner };
    }

    /// Add a producer to the engine.
    /// Once a producer has been added to the engine and the timer is in a state of `TimerState::Running`,
    /// the producer will receive calls to its `on_tick()` method for processing
    ///
    /// Returns the producer's handle. A producer whose cycle has no length is
    /// turned away, and the engine stays as it was.
    pub fn add_producer(&mut self, producer: ProducerEntity) -> (result: Result<
        usize,
        ProducerError,
    >)
        ensures
            producer.is_valid() ==> result == Ok::<usize, ProducerError>(
                old(self).roster().len() as usize,
            ) && final(self).roster() == old(self).roster().push(producer),
            !producer.is_valid() ==> result == Err::<usize, ProducerError>(
                ProducerError::ZeroProductionTime,
            ) && final(self).roster() == old(self).roster(),
            final(self).stock() == old(self).stock(),
            final(self).same_control(old(self)),
    {
        proof {
            use_type_invariant(&*self);
        }
        let mut inner = self.take();
        let result = inner.add_producer(producer);
        *self = Engine { inner };
        result
    }

    /// The handle of the first producer registered under `id`, or `None` if
    /// no producer has that identifier.
    pub fn get_producer(&self, id: &str) -> (handle: Option<usize>)
        ensures
            handle is Some <==> first_with_id(self.roster(), id@) < self.roster().len(),
            handle is Some ==> handle->0 == first_with_id(self.roster(), id@),
            handle is Some ==> self.roster()[handle->0 as int].id@ == id@,
            handle is None ==> forall|k: int|
                0 <= k < self.roster().len() ==> (#[trigger] self.roster()[k]).id@ != id@,
    {
        self.inner.get_producer(id)
    }

    /// The producer under `handle`, if there is one.
    pub fn producer(&self, handle: usize) -> (producer: Option<&ProducerEntity>)
        ensures
            producer is Some <==> handle < self.roster().len(),
            producer is Some ==> *producer->0 == self.roster()[handle as int]
                && producer->0.is_valid(),
    {
        self.inner.producer(handle)
    }

    /// Sets the yield per cycle of the producer under `handle`.
    pub fn set_production_quantity(&mut self, handle: usize, quantity: u64) -> (result: Result<
        (),
        ProducerError,
    >)
        ensures
            handle < old(self).roster().len() ==> result is Ok
                && final(self).roster() == old(self).roster().update(
                handle as int,
                old(self).roster()[handle as int].with_production_quantity(quantity),
            ),
            handle >= old(self).roster().len() ==> result == Err::<(), ProducerError>(
                ProducerError::UnknownHandle,
            ) && final(self).roster() == old(self).roster(),
            final(self).stock() == old(self).stock(),
            final(self).same_control(old(self)),
    {
        proof {
            use_type_invariant(&*self);
        }
        let mut inner = self.take();
        let result = inner.set_production_quantity(handle, quantity);
        *self = Engine { inner };
        result
    }

    /// Sets the cycle length of the producer under `handle`. A cycle without
    /// length is turned away.
    pub fn set_production_time(&mut self, handle: usize, time_ms: u64) -> (result: Result<
        (),
        ProducerError,
    >)
        ensures
            handle < old(self).roster().len() && time_ms > 0 ==> result is Ok
                && final(self).roster() == old(self).roster().update(
                handle as int,
                old(self).roster()[handle as int].with_production_time(time_ms),
            ),
            handle >= old(self).roster().len() ==> result == Err::<(), ProducerError>(
                ProducerError::UnknownHandle,
            ) && final(self).roster() == old(self).roster(),
            handle < old(self).roster().len() && time_ms == 0 ==> result == Err::<
                (),
                ProducerError,
            >(ProducerError::ZeroProductionTime) && final(self).roster() == old(self).roster(),
            final(self).stock() == old(self).stock(),
            final(self).same_control(old(self)),
    {
        proof {
            use_type_invariant(&*self);
        }
        let mut inner = self.take();
        let result = inner.set_production_time(handle, time_ms);
        *self = Engine { inner };
        result
    }

    /// A copy of the stock as it stands.
    pub fn get_products(&self) -> (snapshot: Inventory)
        ensures
            snapshot@ == self.stock(),
    {
        self.inner.get_products()
    }
}

} // verus!
