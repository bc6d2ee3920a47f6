use bvar::reducer::{AddTo, VoidOp};
use bvar::sampler::{GlobalSamplerState, ReducerSampler, Sampler, SeriesSampler};

#[test]
fn registry_lifecycle_spawns_one_driver() {
    let mut state = GlobalSamplerState::new(0);

    // Registering the first sampler asks for a driver thread.
    let no_entries: Vec<bool> = Vec::new();
    let spawn = state.register_sampler(&no_entries, 1);
    assert!(spawn);

    // A second registration finds the driver already running.
    let one_live = vec![true];
    let spawn_again = state.register_sampler(&one_live, 2);
    assert!(!spawn_again);

    // Not a full interval yet; then the sweep fires.
    assert!(!state.is_sweep_due(500));
    assert!(state.is_sweep_due(1000));
    let two_live = vec![true, true];
    let strong = state.begin_sweep(&two_live, 1000);
    assert_eq!(strong, vec![1, 2]);

    // Both owners die during the sweep: the registry empties, turns idle,
    // and tells the driver to exit.
    let both_dead = vec![false, false];
    let exit = state.end_sweep(&both_dead);
    assert!(exit);

    // A fresh registration spawns a fresh driver, never two at once.
    let spawn_fresh = state.register_sampler(&no_entries, 3);
    assert!(spawn_fresh);
}

#[test]
fn sweep_prunes_dead_entries_lazily() {
    let mut state = GlobalSamplerState::new(0);
    let none: Vec<bool> = Vec::new();
    state.register_sampler(&none, 10);
    let l1 = vec![true];
    state.register_sampler(&l1, 11);
    let l2 = vec![true, true];
    state.register_sampler(&l2, 12);

    // The middle sampler died: a sweep only hands back the live ones.
    let partial = vec![true, false, true];
    let strong = state.begin_sweep(&partial, 2000);
    assert_eq!(strong, vec![10, 12]);

    // The stored entries are pruned only when the sweep ends.
    let exit = state.end_sweep(&partial);
    assert!(!exit);
}

#[test]
fn reducer_sampler_respects_destroy() {
    let mut sampler: ReducerSampler<i64, AddTo, VoidOp> = ReducerSampler::new(AddTo, VoidOp);
    assert_eq!(sampler.take_sample(Some(42)), Some(42));
    // A dropped owner is a silent no-op, not an error.
    assert_eq!(sampler.take_sample(None), None);
    sampler.destroy();
    // Once destroyed, sampling is permanently a no-op.
    assert_eq!(sampler.take_sample(Some(42)), None);
}

#[test]
fn reducer_sampler_schedules_into_registry() {
    let mut state = GlobalSamplerState::new(0);
    let sampler: ReducerSampler<i64, AddTo, VoidOp> = ReducerSampler::new(AddTo, VoidOp);
    let none: Vec<bool> = Vec::new();
    let spawn = sampler.schedule(&mut state, &none, 7);
    assert!(spawn);
}

#[test]
fn series_sampler_bounds_its_run() {
    let mut sampler: SeriesSampler<i64, AddTo> = SeriesSampler::new(AddTo);
    assert!(sampler.schedule());
    for i in 0..65i64 {
        sampler.append(i);
    }
    let mut out = String::new();
    sampler.describe(&mut out);
    // Sixty-five appends against a capacity of sixty: the run starts at
    // the sixth value.
    assert!(out.starts_with("[5,6,"));
    assert!(out.ends_with(",64]"));

    sampler.destroy();
    sampler.append(99);
    let mut after = String::new();
    sampler.describe(&mut after);
    // A destroyed sampler records and reports nothing.
    assert_eq!(after, "");
}
