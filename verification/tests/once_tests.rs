use spin::once::InitError;
use spin::once::Once;
use spin::once::OnceError;

#[test]
fn starts_incomplete() {
    let c: Once<u64> = Once::new();
    assert!(!c.is_completed());
    assert!(c.get().is_none());
}

#[test]
fn call_once_initializes_exactly_once() {
    let mut c: Once<u64> = Once::new();
    let v = *c.call_once(|| 92).expect("first initialization must succeed");
    assert_eq!(v, 92);
    assert!(c.is_completed());
    // A second call must not re-run its initializer: the stored value wins.
    let w = *c.call_once(|| 1000).expect("completed cell must answer");
    assert_eq!(w, 92);
    assert_eq!(c.get().copied(), Some(92));
}

#[test]
fn failed_initializer_poisons_the_cell() {
    let mut c: Once<u64> = Once::new();
    let r = c.try_call_once(|| Err::<u64, &str>("boot fault"));
    assert!(matches!(r, Err(InitError::Failed("boot fault"))));
    assert!(!c.is_completed());
    assert!(c.get().is_none());
}

#[test]
fn poisoned_cell_fails_every_later_attempt() {
    let mut c: Once<u64> = Once::new();
    let _ = c.try_call_once(|| Err::<u64, u32>(13));
    // Every later attempt fails fatally: no stale or default value, and the
    // new initializers are never invoked.
    let r1 = c.call_once(|| 5);
    assert_eq!(r1, Err(OnceError::Poisoned));
    let r2 = c.try_call_once(|| Ok::<u64, u32>(6));
    assert!(matches!(r2, Err(InitError::Poisoned)));
    assert!(c.get().is_none());
    assert!(!c.is_completed());
}

#[test]
fn successful_fallible_initializer_completes() {
    let mut c: Once<u64> = Once::new();
    let v = *c
        .try_call_once(|| Ok::<u64, &str>(17))
        .expect("successful initializer must complete the cell");
    assert_eq!(v, 17);
    let w = *c
        .try_call_once(|| Err::<u64, &str>("late"))
        .expect("completed cell must ignore later initializers");
    assert_eq!(w, 17);
}
