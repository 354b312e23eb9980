use buzkaaclicker_backend::cache::{GetOutcome, Memoized};

/// A producer that counts its invocations and returns successive integers,
/// driven by the caller as the cache's contract prescribes.
struct CountingProducer {
    invocations: i32,
}

impl CountingProducer {
    fn new() -> Self {
        CountingProducer { invocations: 0 }
    }

    fn produce(&mut self) -> i32 {
        self.invocations += 1;
        self.invocations
    }
}

/// Reads the cache at `now`, running the producer only when the cache asks.
fn get(cache: &mut Memoized<i32>, producer: &mut CountingProducer, now: u64) -> i32 {
    match cache.get(now) {
        GetOutcome::Fresh => *cache.read(),
        GetOutcome::MustProduce => {
            let value = producer.produce();
            cache.complete(now, Some(value));
            *cache.read()
        }
        GetOutcome::Wait => unreachable!("no concurrent refresh in this test"),
    }
}

#[test]
fn test() {
    let mut producer = CountingProducer::new();
    producer.invocations = 1;
    let initial = producer.produce();
    let mut memoized = Memoized::new(5000, 0, initial);
    assert_eq!(get(&mut memoized, &mut producer, 1), 2);
    assert_eq!(get(&mut memoized, &mut producer, 2), 2);
}

#[test]
fn freshness_scenario() {
    let mut producer = CountingProducer::new();
    // Initial synchronous fill at t=0: the first production.
    let initial = producer.produce();
    let mut cache = Memoized::new(100, 0, initial);

    assert_eq!(get(&mut cache, &mut producer, 0), 1);
    assert_eq!(get(&mut cache, &mut producer, 50), 1);

    // t=150: stale. Two concurrent callers; the first triggers the one
    // refresh, the second waits on it.
    let first = cache.get(150);
    assert_eq!(first, GetOutcome::MustProduce);
    let second = cache.get(150);
    assert_eq!(second, GetOutcome::Wait);
    let value = producer.produce();
    cache.complete(150, Some(value));
    assert_eq!(*cache.read(), 2);
    assert_eq!(*cache.read(), 2);

    assert_eq!(get(&mut cache, &mut producer, 160), 2);

    // The producer ran exactly twice over the whole sequence.
    assert_eq!(producer.invocations, 2);
}

#[test]
fn stale_on_failure() {
    let mut cache = Memoized::new(100, 0, 41);

    // The window has passed; the refresh is triggered but its producer fails.
    assert_eq!(cache.get(250), GetOutcome::MustProduce);
    cache.complete(260, None);

    // The last good value is still served...
    assert_eq!(*cache.read(), 41);
    // ...and the freshness timestamp did not advance: the very next read
    // retries instead of caching the failure for a whole window.
    assert_eq!(cache.get(261), GetOutcome::MustProduce);
    cache.complete(270, Some(42));
    assert_eq!(*cache.read(), 42);
    assert_eq!(cache.get(300), GetOutcome::Fresh);
}

#[test]
fn waiters_do_not_duplicate_the_refresh() {
    let mut cache = Memoized::new(10, 0, 7);
    assert_eq!(cache.get(100), GetOutcome::MustProduce);
    // However many readers arrive before completion, none triggers another
    // production.
    assert_eq!(cache.get(100), GetOutcome::Wait);
    assert_eq!(cache.get(150), GetOutcome::Wait);
    assert_eq!(cache.get(10_000), GetOutcome::Wait);
    cache.complete(200, Some(8));
    assert_eq!(cache.get(205), GetOutcome::Fresh);
    assert_eq!(*cache.read(), 8);
}
