use idle_terminal::continuum::roster::Roster;
use idle_terminal::continuum::{ProducerEntity, ProducerError, ProductType};

fn unit(id: &str, product: &str, quantity: u64, time_ms: u64) -> ProducerEntity {
    ProducerEntity {
        id: id.to_string(),
        base_cost: 100,
        cost_coefficient: 103,
        product_type: ProductType {
            name: product.to_string(),
            production_quantity: quantity,
            value_per_unit: 2,
        },
        production_time_ms: time_ms,
        time_elapsed: 0,
    }
}

#[test]
fn roster_starts_empty() {
    let roster = Roster::new();
    assert_eq!(roster.len(), 0);
    assert!(roster.get(0).is_none());
    assert_eq!(roster.find("gold"), None);
}

#[test]
fn roster_keeps_registration_order() {
    let mut roster = Roster::new();
    assert_eq!(roster.push(unit("a", "Gold", 1, 10)), Ok(0));
    assert_eq!(roster.push(unit("b", "Wood", 1, 10)), Ok(1));
    assert_eq!(roster.push(unit("c", "Gold", 1, 10)), Ok(2));
    assert_eq!(roster.len(), 3);
    assert_eq!(roster.get(1).unwrap().id(), "b");
    assert_eq!(roster.find("c"), Some(2));
    assert_eq!(roster.find("d"), None);
}

#[test]
fn roster_turns_away_a_cycle_without_length() {
    let mut roster = Roster::new();
    roster.push(unit("a", "Gold", 1, 10)).unwrap();
    assert_eq!(roster.push(unit("z", "Gold", 1, 0)), Err(ProducerError::ZeroProductionTime));
    assert_eq!(roster.len(), 1);
    assert_eq!(roster.find("z"), None);
}

#[test]
fn roster_ticks_one_producer_and_leaves_the_others() {
    let mut roster = Roster::new();
    roster.push(unit("a", "Gold", 2, 10)).unwrap();
    roster.push(unit("b", "Wood", 3, 10)).unwrap();
    assert_eq!(roster.tick(1, 25), 6);
    assert_eq!(roster.get(1).unwrap().time_elapsed, 5);
    assert_eq!(roster.get(0).unwrap().time_elapsed, 0);
    assert_eq!(roster.len(), 2);
}

#[test]
fn roster_setters_check_handle_and_cycle() {
    let mut roster = Roster::new();
    roster.push(unit("a", "Gold", 2, 10)).unwrap();
    assert_eq!(roster.set_production_quantity(0, 9), Ok(()));
    assert_eq!(roster.get(0).unwrap().production_quantity(), 9);
    assert_eq!(roster.set_production_quantity(1, 9), Err(ProducerError::UnknownHandle));
    assert_eq!(roster.set_production_time(0, 0), Err(ProducerError::ZeroProductionTime));
    assert_eq!(roster.set_production_time(1, 5), Err(ProducerError::UnknownHandle));
    assert_eq!(roster.set_production_time(0, 5), Ok(()));
    assert_eq!(roster.get(0).unwrap().production_time(), 5);
    assert_eq!(roster.get(0).unwrap().id(), "a");
}
