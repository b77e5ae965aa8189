use hyperfuel_node::retry::{HeightRetry, RetryAction, MAX_BACKOFF};

#[test]
fn three_failures_then_height() {
    let outcomes = [None, None, None, Some(1000u64)];
    let mut r = HeightRetry::new();
    let mut sleeps = Vec::new();
    let mut got = None;
    for o in outcomes {
        match r.on_attempt(o) {
            RetryAction::Sleep(d) => sleeps.push(d),
            RetryAction::Done(h) => {
                got = Some(h);
                break;
            }
        }
    }
    assert_eq!(got, Some(1000));
    assert_eq!(sleeps, vec![1, 2, 3]);
}

#[test]
fn backoff_is_capped() {
    let mut r = HeightRetry::new();
    let mut sleeps = Vec::new();
    for _ in 0..8 {
        if let RetryAction::Sleep(d) = r.on_attempt(None) {
            sleeps.push(d);
        }
    }
    assert_eq!(sleeps, vec![1, 2, 3, 4, 5, 5, 5, 5]);
    assert_eq!(r.delay, MAX_BACKOFF);
    assert_eq!(r.on_attempt(Some(7)), RetryAction::Done(7));
    assert_eq!(r.delay, MAX_BACKOFF);
}
