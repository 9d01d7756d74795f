use idle_terminal::continuum::{
    EngineConfig, EngineInner, ProducerEntity, ProducerError, ProductType, TimerState,
};

fn worker(id: &str, product: &str, quantity: u64, time_ms: u64) -> ProducerEntity {
    ProducerEntity {
        id: id.to_string(),
        base_cost: 100,
        cost_coefficient: 103,
        product_type: ProductType {
            name: product.to_string(),
            production_quantity: quantity,
            value_per_unit: 1,
        },
        production_time_ms: time_ms,
        time_elapsed: 0,
    }
}

fn inner() -> EngineInner {
    EngineInner::new(EngineConfig { tick_timeout_ms: 25 })
}

#[test]
fn inner_state_starts_at_rest() {
    let state = inner();
    assert_eq!(state.timer_state(), TimerState::Stopped);
    assert!(state.get_products().entries().is_empty());
    assert!(state.producer(0).is_none());
    assert_eq!(state.get_producer("gold"), None);
}

#[test]
fn inner_timer_starts_and_stops() {
    let mut state = inner();
    assert!(!state.stop_timer());
    assert_eq!(state.start_timer(), 25);
    assert_eq!(state.timer_state(), TimerState::Running);
    assert!(state.stop_timer());
    assert_eq!(state.timer_state(), TimerState::Stopped);
    assert!(!state.stop_timer());
    assert_eq!(state.start_timer(), 25);
}

#[test]
fn inner_add_and_get_producer() {
    let mut state = inner();
    assert_eq!(state.add_producer(worker("gold", "Gold", 1, 1000)), Ok(0));
    assert_eq!(
        state.add_producer(worker("none", "Gold", 1, 0)),
        Err(ProducerError::ZeroProductionTime)
    );
    assert_eq!(state.add_producer(worker("wood", "Wood", 1, 500)), Ok(1));
    assert_eq!(state.get_producer("wood"), Some(1));
    assert_eq!(state.get_producer("none"), None);
    assert_eq!(state.producer(1).unwrap().id(), "wood");
}

#[test]
fn inner_process_tick_drives_every_producer() {
    let mut state = inner();
    state.add_producer(worker("gold", "Gold", 1, 1000)).unwrap();
    state.add_producer(worker("wood", "Wood", 4, 500)).unwrap();
    state.add_producer(worker("pan", "Gold", 10, 300)).unwrap();
    assert!(state.can_process_tick(1250));
    state.process_tick(1250);
    let products = state.get_products();
    assert_eq!(products.get("Gold"), Some(1 + 40));
    assert_eq!(products.get("Wood"), Some(8));
    assert_eq!(state.producer(0).unwrap().time_elapsed, 250);
    assert_eq!(state.producer(1).unwrap().time_elapsed, 250);
    assert_eq!(state.producer(2).unwrap().time_elapsed, 50);
    // stocked in the order of first production
    assert_eq!(products.entries()[0].0, "Gold");
    assert_eq!(products.entries()[1].0, "Wood");
}

#[test]
fn inner_rate_setters_reach_the_producer() {
    let mut state = inner();
    state.add_producer(worker("gold", "Gold", 1, 1000)).unwrap();
    assert_eq!(state.set_production_quantity(0, 3), Ok(()));
    assert_eq!(state.set_production_time(0, 100), Ok(()));
    assert_eq!(state.set_production_time(0, 0), Err(ProducerError::ZeroProductionTime));
    assert_eq!(state.set_production_quantity(1, 3), Err(ProducerError::UnknownHandle));
    state.process_tick(250);
    assert_eq!(state.get_products().get("Gold"), Some(6));
    assert_eq!(state.producer(0).unwrap().time_elapsed, 50);
}
