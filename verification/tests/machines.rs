use godfather_backend::errors::ErrorKind;
use godfather_backend::machines::MachineRegistry;
use godfather_backend::models::{Liveness, Occupancy};

#[test]
fn register_assigns_dense_ids_and_defaults() {
    let mut reg = MachineRegistry::new();
    let m1 = reg.register("beta".to_string(), 100).unwrap();
    let m2 = reg.register("alpha".to_string(), 101).unwrap();
    assert_eq!(m1.id, 1);
    assert_eq!(m2.id, 2);
    assert_eq!(m1.name, "beta");
    assert!(matches!(m1.occupancy, Occupancy::Available));
    assert!(matches!(m1.liveness, Liveness::Online));
    assert_eq!(m1.last_seen_at, 100);
}

#[test]
fn register_duplicate_name_is_conflict() {
    let mut reg = MachineRegistry::new();
    reg.register("pc-1".to_string(), 5).unwrap();
    let r = reg.register("pc-1".to_string(), 6);
    assert_eq!(r.unwrap_err(), ErrorKind::Conflict);
    assert_eq!(reg.list().len(), 1);
}

#[test]
fn list_is_sorted_by_name() {
    let mut reg = MachineRegistry::new();
    reg.register("gamma".to_string(), 1).unwrap();
    reg.register("alpha".to_string(), 2).unwrap();
    reg.register("beta".to_string(), 3).unwrap();
    let names: Vec<String> = reg.list().into_iter().map(|m| m.name).collect();
    assert_eq!(names, vec!["alpha".to_string(), "beta".to_string(), "gamma".to_string()]);
}

#[test]
fn heartbeat_unknown_machine_is_not_found() {
    let mut reg = MachineRegistry::new();
    assert_eq!(reg.heartbeat(7, 10).unwrap_err(), ErrorKind::NotFound);
}

#[test]
fn heartbeat_refreshes_liveness_and_timestamp() {
    let mut reg = MachineRegistry::new();
    let m = reg.register("pc-1".to_string(), 10).unwrap();
    reg.mark_offline(m.id).unwrap();
    let after = reg.heartbeat(m.id, 42).unwrap();
    assert!(matches!(after.liveness, Liveness::Online));
    assert_eq!(after.last_seen_at, 42);
}

#[test]
fn heartbeat_on_reserved_machine_keeps_it_reserved() {
    let mut reg = MachineRegistry::new();
    let m = reg.register("pc-1".to_string(), 10).unwrap();
    reg.reserve(m.id).unwrap();
    let after = reg.heartbeat(m.id, 99).unwrap();
    assert!(matches!(after.occupancy, Occupancy::Reserved));
    assert_eq!(after.last_seen_at, 99);
    // A second reservation still conflicts: occupancy was not reset.
    assert_eq!(reg.reserve(m.id).unwrap_err(), ErrorKind::Conflict);
}

#[test]
fn reserve_transitions_available_to_reserved() {
    let mut reg = MachineRegistry::new();
    let m = reg.register("pc-1".to_string(), 10).unwrap();
    let reserved = reg.reserve(m.id).unwrap();
    assert!(matches!(reserved.occupancy, Occupancy::Reserved));
}

#[test]
fn reserve_unknown_machine_is_not_found() {
    let mut reg = MachineRegistry::new();
    assert_eq!(reg.reserve(3).unwrap_err(), ErrorKind::NotFound);
}

#[test]
fn reserve_offline_machine_is_unavailable() {
    let mut reg = MachineRegistry::new();
    let m = reg.register("pc-1".to_string(), 10).unwrap();
    reg.mark_offline(m.id).unwrap();
    assert_eq!(reg.reserve(m.id).unwrap_err(), ErrorKind::Unavailable);
}

#[test]
fn reserve_reserved_machine_is_conflict() {
    let mut reg = MachineRegistry::new();
    let m = reg.register("pc-1".to_string(), 10).unwrap();
    reg.reserve(m.id).unwrap();
    assert_eq!(reg.reserve(m.id).unwrap_err(), ErrorKind::Conflict);
}

#[test]
fn release_returns_machine_to_available() {
    let mut reg = MachineRegistry::new();
    let m = reg.register("pc-1".to_string(), 10).unwrap();
    reg.reserve(m.id).unwrap();
    let released = reg.release(m.id).unwrap();
    assert!(matches!(released.occupancy, Occupancy::Available));
    // Reservable again.
    assert!(reg.reserve(m.id).is_ok());
}

#[test]
fn release_on_available_machine_is_a_successful_no_op() {
    let mut reg = MachineRegistry::new();
    let m = reg.register("pc-1".to_string(), 10).unwrap();
    let released = reg.release(m.id).unwrap();
    assert!(matches!(released.occupancy, Occupancy::Available));
    assert_eq!(released.last_seen_at, 10);
}

#[test]
fn release_unknown_machine_is_not_found() {
    let mut reg = MachineRegistry::new();
    assert_eq!(reg.release(1).unwrap_err(), ErrorKind::NotFound);
}
