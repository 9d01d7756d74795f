use idle_terminal::continuum::{Engine, EngineConfig, ProducerEntity, ProductType};
use idle_terminal::game::{add_gold_mine, add_wood_cutter, UNITS_PER_WHOLE};

fn engine() -> Engine {
    Engine::new(EngineConfig { tick_timeout_ms: 50 })
}

#[test]
fn first_press_registers_the_gold_mine() {
    let mut e = engine();
    add_gold_mine(&mut e);
    assert_eq!(e.get_producer("gold"), Some(0));
    let mine = e.producer(0).unwrap();
    assert_eq!(mine.id(), "gold");
    assert_eq!(mine.base_cost, 100);
    assert_eq!(mine.cost_coefficient, 103);
    assert_eq!(mine.product_type().name, "Gold");
    assert_eq!(mine.production_quantity(), 1);
    assert_eq!(mine.product_type().value_per_unit, 100);
    assert_eq!(mine.production_time(), 1000);
    assert_eq!(mine.time_elapsed, 0);
    assert!(e.producer(1).is_none());
}

#[test]
fn first_press_registers_the_wood_cutter() {
    let mut e = engine();
    add_wood_cutter(&mut e);
    assert_eq!(e.get_producer("wood"), Some(0));
    let cutter = e.producer(0).unwrap();
    assert_eq!(cutter.id(), "wood");
    assert_eq!(cutter.base_cost, 100);
    assert_eq!(cutter.cost_coefficient, 104);
    assert_eq!(cutter.product_type().name, "Wood");
    assert_eq!(cutter.production_quantity(), UNITS_PER_WHOLE);
    assert_eq!(cutter.product_type().value_per_unit, 200);
    assert_eq!(cutter.production_time(), 500);
    assert_eq!(cutter.time_elapsed, 0);
}

#[test]
fn further_presses_double_the_yield() {
    let mut e = engine();
    add_gold_mine(&mut e);
    add_wood_cutter(&mut e);
    add_gold_mine(&mut e);
    assert_eq!(e.producer(0).unwrap().production_quantity(), 2);
    assert_eq!(e.producer(1).unwrap().production_quantity(), 100);
    add_gold_mine(&mut e);
    add_wood_cutter(&mut e);
    assert_eq!(e.producer(0).unwrap().production_quantity(), 4);
    assert_eq!(e.producer(1).unwrap().production_quantity(), 200);
    assert!(e.producer(2).is_none());
    assert_eq!(e.producer(0).unwrap().production_time(), 1000);
    assert_eq!(e.producer(1).unwrap().production_time(), 500);
}

#[test]
fn upgrade_keeps_the_time_already_credited() {
    let mut e = engine();
    add_gold_mine(&mut e);
    e.process_tick(1700);
    add_gold_mine(&mut e);
    assert_eq!(e.producer(0).unwrap().time_elapsed, 700);
    assert_eq!(e.get_products().get("Gold"), Some(1));
    e.process_tick(400);
    assert_eq!(e.get_products().get("Gold"), Some(3));
}

#[test]
fn yield_stops_doubling_at_the_end_of_the_range() {
    let mut e = engine();
    add_gold_mine(&mut e);
    e.set_production_quantity(0, u64::MAX / 2).unwrap();
    add_gold_mine(&mut e);
    assert_eq!(e.producer(0).unwrap().production_quantity(), u64::MAX - 1);
    add_gold_mine(&mut e);
    assert_eq!(e.producer(0).unwrap().production_quantity(), u64::MAX);
    add_gold_mine(&mut e);
    assert_eq!(e.producer(0).unwrap().production_quantity(), u64::MAX);
}

#[test]
fn press_upgrades_the_first_producer_of_that_name() {
    let mut e = engine();
    for quantity in [7u64, 9] {
        e.add_producer(ProducerEntity {
            id: "gold".to_string(),
            base_cost: 0,
            cost_coefficient: 0,
            product_type: ProductType {
                name: "Gold".to_string(),
                production_quantity: quantity,
                value_per_unit: 0,
            },
            production_time_ms: 10,
            time_elapsed: 3,
        })
        .unwrap();
    }
    add_gold_mine(&mut e);
    assert_eq!(e.producer(0).unwrap().production_quantity(), 14);
    assert_eq!(e.producer(0).unwrap().production_time(), 10);
    assert_eq!(e.producer(0).unwrap().time_elapsed, 3);
    assert_eq!(e.producer(1).unwrap().production_quantity(), 9);
    assert!(e.producer(2).is_none());
}

#[test]
fn presses_leave_stock_and_timer_alone() {
    let mut e = engine();
    add_wood_cutter(&mut e);
    e.start();
    e.process_tick(1200);
    add_wood_cutter(&mut e);
    add_gold_mine(&mut e);
    assert_eq!(e.get_products().get("Wood"), Some(200));
    assert_eq!(e.get_products().get("Gold"), None);
    assert_eq!(e.timer_state(), idle_terminal::continuum::TimerState::Running);
}
