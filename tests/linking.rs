use plant_api::link::{link_decision, link_error_of, link_plant_to_pot, unlink_plant_from_pot, LinkError};
use plant_api::store::{Assignment, Store, StoreError};

fn setup() -> (Store, i32, i32) {
    let mut store = Store::new();
    let a = store.insert_user("a@x", "h".to_string()).unwrap();
    let b = store.insert_user("b@x", "h".to_string()).unwrap();
    (store, a, b)
}

#[test]
fn link_once_then_already_linked_and_unlink_is_idempotent() {
    let (mut store, a, _) = setup();
    let plant = store.create_plant("fern", a).unwrap().id;
    let other = store.create_plant("ivy", a).unwrap().id;
    let pot = store.create_pot(a).unwrap().id;
    assert_eq!(link_plant_to_pot(&mut store, a, plant, pot), Ok(()));
    assert_eq!(*store.assignments(), vec![Assignment { plant_id: plant, pot_id: pot }]);
    assert_eq!(link_plant_to_pot(&mut store, a, other, pot), Err(LinkError::AlreadyLinked));
    assert_eq!(link_plant_to_pot(&mut store, a, plant, pot), Err(LinkError::AlreadyLinked));
    assert_eq!(unlink_plant_from_pot(&mut store, a, plant, pot), Ok(()));
    assert!(store.assignments().is_empty());
    assert_eq!(unlink_plant_from_pot(&mut store, a, plant, pot), Ok(()));
    assert!(store.assignments().is_empty());
    assert_eq!(link_plant_to_pot(&mut store, a, other, pot), Ok(()));
}

#[test]
fn racing_links_for_one_pot_leave_one_link() {
    let (mut store, a, _) = setup();
    let p1 = store.create_plant("fern", a).unwrap().id;
    let p2 = store.create_plant("ivy", a).unwrap().id;
    let pot = store.create_pot(a).unwrap().id;
    let first = link_plant_to_pot(&mut store, a, p2, pot);
    let second = link_plant_to_pot(&mut store, a, p1, pot);
    assert_eq!(first, Ok(()));
    assert_eq!(second, Err(LinkError::AlreadyLinked));
    assert_eq!(store.assignments().iter().filter(|l| l.pot_id == pot).count(), 1);
}

#[test]
fn plant_already_linked_elsewhere_is_already_linked() {
    let (mut store, a, _) = setup();
    let plant = store.create_plant("fern", a).unwrap().id;
    let pot1 = store.create_pot(a).unwrap().id;
    let pot2 = store.create_pot(a).unwrap().id;
    assert_eq!(link_plant_to_pot(&mut store, a, plant, pot1), Ok(()));
    assert_eq!(link_plant_to_pot(&mut store, a, plant, pot2), Err(LinkError::AlreadyLinked));
    assert_eq!(store.assignments().len(), 1);
}

#[test]
fn linking_another_users_plant_is_not_found() {
    let (mut store, a, b) = setup();
    let plant = store.create_plant("fern", a).unwrap().id;
    let pot_a = store.create_pot(a).unwrap().id;
    let pot_b = store.create_pot(b).unwrap().id;
    assert_eq!(link_plant_to_pot(&mut store, b, plant, pot_b), Err(LinkError::NotFound));
    assert_eq!(link_plant_to_pot(&mut store, b, plant, pot_a), Err(LinkError::NotFound));
    assert!(store.assignments().is_empty());
}

#[test]
fn missing_plant_or_pot_is_not_found() {
    let (mut store, a, b) = setup();
    let plant = store.create_plant("fern", a).unwrap().id;
    let pot_b = store.create_pot(b).unwrap().id;
    assert_eq!(link_plant_to_pot(&mut store, a, 99, pot_b), Err(LinkError::NotFound));
    assert_eq!(link_plant_to_pot(&mut store, a, plant, 99), Err(LinkError::NotFound));
    assert_eq!(link_plant_to_pot(&mut store, a, plant, pot_b), Err(LinkError::NotFound));
}

#[test]
fn unlink_by_someone_else_leaves_link() {
    let (mut store, a, b) = setup();
    let plant = store.create_plant("fern", a).unwrap().id;
    let pot = store.create_pot(a).unwrap().id;
    link_plant_to_pot(&mut store, a, plant, pot).unwrap();
    assert_eq!(unlink_plant_from_pot(&mut store, b, plant, pot), Ok(()));
    assert_eq!(store.assignments().len(), 1);
    assert_eq!(unlink_plant_from_pot(&mut store, a, plant, pot + 1), Ok(()));
    assert_eq!(store.assignments().len(), 1);
}

#[test]
fn link_rules_on_each_fact() {
    assert_eq!(link_decision(true, true, false, false), Ok(()));
    assert_eq!(link_decision(false, true, false, false), Err(LinkError::NotFound));
    assert_eq!(link_decision(true, false, true, true), Err(LinkError::NotFound));
    assert_eq!(link_decision(true, true, true, false), Err(LinkError::AlreadyLinked));
    assert_eq!(link_decision(true, true, false, true), Err(LinkError::AlreadyLinked));
}

#[test]
fn failed_link_inserts_map_to_link_errors() {
    assert_eq!(link_error_of(StoreError::UniqueViolation), LinkError::AlreadyLinked);
    assert_eq!(link_error_of(StoreError::Other), LinkError::InternalError);
}

#[test]
fn insert_assignment_enforces_uniqueness() {
    let (mut store, _, _) = setup();
    assert_eq!(store.insert_assignment(Assignment { plant_id: 1, pot_id: 1 }), Ok(()));
    assert_eq!(store.insert_assignment(Assignment { plant_id: 2, pot_id: 1 }), Err(StoreError::UniqueViolation));
    assert_eq!(store.insert_assignment(Assignment { plant_id: 1, pot_id: 2 }), Err(StoreError::UniqueViolation));
    assert_eq!(store.assignments().len(), 1);
}
