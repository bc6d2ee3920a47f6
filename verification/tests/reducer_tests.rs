use bvar::combiner::{AgentModifier, Combiner, Modifier, OpAsModifier};
use bvar::recorder::{IntRecorder, Stat};
use bvar::reducer::{Adder, AddTo, Maxer, MaxCombiner, MinCombiner, Miner, MinusFrom, Reducer, SumCombiner, VoidOp};
use bvar::sampler::{ReducerSampler, Sampler, SeriesSampler};
use bvar::variable::{count_exposed, Variable, VarRegistry};

#[test]
fn test_reducer() {
    let mut reg = VarRegistry::new();
    let mut reducer = Reducer::new(0, AddTo::default(), "test".to_string());
    let _ = reducer.expose(&mut reg, "test");
    let _ = reducer.expose_as(&mut reg, "prefix", "test");
    reducer.add(0, 1);
    reducer.add(0, 2);
    reducer.add(0, 3);
    reducer.add(0, 4);
    reducer.add(0, 5);
    reducer.add(0, 6);
    reducer.add(0, 7);
    let _ = reducer.reset();
}

#[test]
fn test_int_recorder() {
    let mut reg = VarRegistry::new();
    let mut recorder = IntRecorder::new();
    let _ = recorder.expose(&mut reg, "test");
    let value = recorder.get_value();
    assert_eq!(value.sum, 0);
    assert_eq!(value.num, 0);

    recorder.add(0, 1);
    let value = recorder.get_value();
    assert_eq!(value.sum, 1);
    assert_eq!(value.num, 1);

    recorder.add(0, 2);
    let value = recorder.get_value();
    assert_eq!(value.sum, 3);
    assert_eq!(value.num, 2);

    recorder.reset();
    let value = recorder.get_value();
    assert_eq!(value.sum, 0);
    assert_eq!(value.num, 0);
}

#[test]
fn fold_equals_reduction_across_workers() {
    // The same values distributed over different workers fold to the same
    // total, and a single add is never lost to a discarded accumulator.
    let mut lone = Adder::new();
    lone.add(0, 5);
    assert_eq!(lone.get_value(), 5);

    let mut spread = Adder::new();
    spread.add(1, 1);
    spread.add(2, 2);
    spread.add(3, 3);
    spread.add(1, 4);
    assert_eq!(spread.get_value(), 10);

    let mut bunched = Adder::new();
    bunched.add(7, 1);
    bunched.add(7, 2);
    bunched.add(7, 3);
    bunched.add(7, 4);
    assert_eq!(bunched.get_value(), 10);
}

#[test]
fn reset_returns_snapshot_then_identity() {
    let mut adder = Adder::new();
    adder.add(1, 20);
    adder.add(2, 22);
    let snapshot = adder.reset();
    assert_eq!(snapshot, 42);
    assert_eq!(adder.get_value(), 0);
}

#[test]
fn maxer_and_miner_track_extremes() {
    let mut maxer = Maxer::new(i64::MIN);
    maxer.add(1, 3);
    maxer.add(2, 9);
    maxer.add(1, 7);
    assert_eq!(maxer.get_value(), 9);
    let _ = maxer.reset();
    assert_eq!(maxer.get_value(), i64::MIN);

    let mut miner = Miner::new(i64::MAX);
    miner.add(1, 3);
    miner.add(2, 9);
    miner.add(2, -4);
    assert_eq!(miner.get_value(), -4);
}

#[test]
fn minus_from_is_inverse_of_add_to() {
    let plus = AddTo::default();
    let minus = MinusFrom::default();
    let combined = plus.combine(10, 32);
    assert_eq!(combined, 42);
    assert_eq!(minus.combine(combined, 32), 10);
    assert_eq!(plus.name(), "add");
    assert_eq!(minus.name(), "minus");
}

#[test]
fn reducer_describe_writes_value() {
    let mut reducer = Reducer::new(0, AddTo::default(), "r".to_string());
    reducer.add(0, -123);
    assert_eq!(reducer.get_description(), "-123");
}

#[test]
fn stat_average_truncates_toward_zero() {
    assert_eq!(Stat::new(7, 2).get_average_int(), 3);
    assert_eq!(Stat::new(-7, 2).get_average_int(), -3);
    assert_eq!(Stat::new(7, -2).get_average_int(), -3);
    assert_eq!(Stat::new(-7, -2).get_average_int(), 3);
    assert_eq!(Stat::new(5, 0).get_average_int(), 0);
    assert_eq!(Stat::new(i64::MIN, 2).get_average_int(), i64::MIN / 2);
}

#[test]
fn stat_plus_and_minus_are_componentwise() {
    let a = Stat::new(5, 2);
    let b = Stat::new(3, 1);
    let sum = a.plus(&b);
    assert_eq!(sum.sum, 8);
    assert_eq!(sum.num, 3);
    let diff = sum.minus(&b);
    assert_eq!(diff.sum, 5);
    assert_eq!(diff.num, 2);
}

#[test]
fn recorder_average_rounds_down() {
    let mut recorder = IntRecorder::new();
    recorder.add(1, 99);
    recorder.add(2, 1);
    recorder.add(1, 99);
    recorder.add(3, 105);
    assert_eq!(recorder.get_value().sum, 304);
    assert_eq!(recorder.get_value().num, 4);
    assert_eq!(recorder.average(), 76);
}

#[test]
fn fresh_recorder_describes_zero() {
    let recorder = IntRecorder::new();
    assert_eq!(recorder.get_description(), "0");
}

#[test]
fn exposure_updates_name_and_registry() {
    let mut reg = VarRegistry::new();
    let mut adder = Adder::with_name(&mut reg, "requests");
    assert_eq!(adder.name(), "requests");
    assert_eq!(count_exposed(&reg), 1);
    assert!(!adder.is_hidden());

    let mut prefixed = Adder::with_prefix_name(&mut reg, "app", "requests");
    assert_eq!(prefixed.name(), "app_requests");
    assert_eq!(count_exposed(&reg), 2);

    assert!(adder.unexpose(&mut reg));
    assert_eq!(count_exposed(&reg), 1);
    assert!(prefixed.unexpose(&mut reg));
    assert_eq!(count_exposed(&reg), 0);
}

#[test]
fn standalone_combiners_pick_extremes_and_sums() {
    let sum = SumCombiner;
    let max = MaxCombiner;
    let min = MinCombiner;
    assert_eq!(sum.combine(2, 40), 42);
    assert_eq!(max.combine(2, 40), 40);
    assert_eq!(max.combine(40, 2), 40);
    assert_eq!(min.combine(2, 40), 2);
    assert_eq!(min.combine(40, 2), 2);
    assert_eq!(sum.modify(7), 7);
    assert_eq!(sum.name(), "sum");
    assert_eq!(max.name(), "max");
    assert_eq!(min.name(), "min");
}

#[test]
fn modifiers_update_in_place() {
    let as_modifier = OpAsModifier::new(AddTo::default());
    let mut value: i64 = 10;
    as_modifier.modify(&mut value, &32);
    assert_eq!(value, 42);

    let custom = AgentModifier::new(|v: i64, step: i64| v - step);
    let mut counter: i64 = 50;
    custom.apply(&mut counter, &8);
    assert_eq!(counter, 42);
}

#[test]
fn sampler_interval_is_one_second() {
    let reducer_sampler: ReducerSampler<i64, AddTo, VoidOp> = ReducerSampler::new(AddTo, VoidOp);
    assert_eq!(reducer_sampler.interval_ms(), 1000);
    let series_sampler: SeriesSampler<i64, AddTo> = SeriesSampler::new(AddTo);
    assert_eq!(series_sampler.interval_ms(), 1000);
}
