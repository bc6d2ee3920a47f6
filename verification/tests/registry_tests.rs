use bvar::reducer::{AddTo, Reducer};
use bvar::status::Status;
use bvar::variable::{count_exposed, Variable, VarRegistry};

#[test]
fn test_status() {
    let mut reg = VarRegistry::new();
    let mut status: Status<i64> = Status::new(1);
    let _ = status.expose(&mut reg, "test");
    let value = status.get_value();
    assert_eq!(value, 1);
    let _ = status.unexpose(&mut reg);
    let value = status.get_value();
    assert_eq!(value, 1);

    // change value
    status.set_value(2);
    let value = status.get_value();
    assert_eq!(value, 2);
}

#[test]
fn name_conflict_yields_negative_status() {
    let mut reg = VarRegistry::new();
    let mut first: Status<i64> = Status::new(1);
    let mut second: Status<i64> = Status::new(2);

    assert_eq!(first.expose(&mut reg, "shared"), 0);
    assert_eq!(second.expose(&mut reg, "shared"), -1);
    assert_eq!(count_exposed(&reg), 1);

    // Once the holder hides, the name is available again.
    assert!(first.unexpose(&mut reg));
    assert_eq!(count_exposed(&reg), 0);
    assert_eq!(second.expose(&mut reg, "shared"), 0);
    assert_eq!(count_exposed(&reg), 1);
}

#[test]
fn hide_leaves_foreign_claims_alone() {
    let mut reg = VarRegistry::new();
    let mut first: Status<i64> = Status::new(1);
    let mut second: Status<i64> = Status::new(2);

    assert_eq!(first.expose(&mut reg, "name"), 0);
    assert!(first.unexpose(&mut reg));
    assert_eq!(second.expose(&mut reg, "name"), 0);

    // The first object's name still reads "name", but the claim now
    // belongs to the second object, so hiding the first does nothing.
    assert!(!first.unexpose(&mut reg));
    assert_eq!(count_exposed(&reg), 1);
    assert!(second.unexpose(&mut reg));
    assert_eq!(count_exposed(&reg), 0);
}

#[test]
fn status_exposure_flag_tracks_hide() {
    let mut reg = VarRegistry::new();
    let mut status: Status<i64> = Status::new(7);
    assert!(status.is_hidden());
    assert_eq!(status.expose(&mut reg, "flag"), 0);
    assert!(!status.is_hidden());
    assert!(status.unexpose(&mut reg));
    assert!(status.is_hidden());
}

#[test]
fn status_with_prefix_name_builds_full_name() {
    let mut reg = VarRegistry::new();
    let status = Status::with_prefix_name(&mut reg, 3, "app", "mode");
    assert_eq!(status.name(), "app_mode");
    assert_eq!(status.get_description(), "3");
    let empty_prefix = Status::with_name(&mut reg, 4, "bare");
    assert_eq!(empty_prefix.name(), "bare");
}

#[test]
fn reducer_keeps_constructor_name_on_conflict() {
    let mut reg = VarRegistry::new();
    let mut first = Reducer::new(0, AddTo::default(), "init_a".to_string());
    let mut second = Reducer::new(0, AddTo::default(), "init_b".to_string());
    assert_eq!(first.expose(&mut reg, "taken"), 0);
    assert_eq!(first.name(), "taken");
    assert_eq!(second.expose(&mut reg, "taken"), -1);
    // The losing reducer's display name is untouched.
    assert_eq!(second.name(), "init_b");
}
