use spin::lazy::LazyLock;

#[test]
fn force_computes_on_first_access() {
    let mut lazy = LazyLock::new(|| 92u64);
    assert!(lazy.get().is_none());
    let v = *lazy.force().expect("first force must initialize");
    assert_eq!(v, 92);
    assert_eq!(lazy.get().copied(), Some(92));
}

#[test]
fn racing_forces_observe_one_value() {
    // Every caller that forces the singleton, however many times it is
    // forced, observes the value of the one initializer run.
    let mut lazy = LazyLock::new(|| vec![1u64, 2, 3]);
    let first = lazy.force().expect("first force must initialize").clone();
    for _ in 0..50 {
        let again = lazy.force().expect("later forces must answer");
        assert_eq!(*again, first);
    }
    assert_eq!(first, vec![1, 2, 3]);
}

#[test]
fn initializer_runs_at_most_once() {
    // The initializer holder is emptied exactly once: a counter bumped by
    // the initializer ends at one no matter how often the value is forced.
    let runs = std::rc::Rc::new(std::cell::Cell::new(0u32));
    let witness = runs.clone();
    let mut lazy = LazyLock::new(move || {
        witness.set(witness.get() + 1);
        7u64
    });
    for _ in 0..10 {
        let v = *lazy.force().expect("force must answer");
        assert_eq!(v, 7);
    }
    assert_eq!(runs.get(), 1);
    assert_eq!(lazy.get().copied(), Some(7));
}
