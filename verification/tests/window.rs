use gaeta::{Binary64, History, Sample, WINDOW};

fn enc(x: f64) -> Binary64 {
    Binary64::from_bits(x.to_bits())
}

fn sample(timestamp: u64, progress: f64) -> Sample {
    Sample { timestamp, progress: enc(progress) }
}

#[test]
fn window_holds_ten() {
    assert_eq!(WINDOW, 10);
}

#[test]
fn new_window_is_empty() {
    let history = History::new();
    assert_eq!(history.len(), 0);
    assert!(history.get(0).is_none());
    assert_eq!(history.last_progress().to_bits(), 0);
}

#[test]
fn push_appends_at_the_back() {
    let mut history = History::new();
    history.push(sample(1, 10.0));
    history.push(sample(2, 20.0));
    history.push(sample(3, 30.0));
    assert_eq!(history.len(), 3);
    for i in 0..3 {
        let held = history.get(i).unwrap();
        assert_eq!(held.timestamp, i as u64 + 1);
        assert_eq!(held.progress.to_bits(), ((i as f64 + 1.0) * 10.0).to_bits());
    }
    assert!(history.get(3).is_none());
    assert!(history.get(usize::MAX).is_none());
    assert_eq!(history.last_progress().to_bits(), 30.0f64.to_bits());
}

#[test]
fn full_window_drops_the_oldest() {
    let mut history = History::new();
    for i in 0..10u64 {
        history.push(sample(i, i as f64));
        assert_eq!(history.len(), i as usize + 1);
    }
    assert_eq!(history.get(0).unwrap().timestamp, 0);
    history.push(sample(10, 10.0));
    assert_eq!(history.len(), 10);
    for i in 0..10usize {
        assert_eq!(history.get(i).unwrap().timestamp, i as u64 + 1);
    }
    history.push(sample(11, 11.0));
    assert_eq!(history.len(), 10);
    assert_eq!(history.get(0).unwrap().timestamp, 2);
    assert_eq!(history.get(9).unwrap().timestamp, 11);
    assert_eq!(history.last_progress().to_bits(), 11.0f64.to_bits());
}

#[test]
fn window_never_grows_past_ten() {
    let mut history = History::new();
    for i in 0..1000u64 {
        history.push(sample(i, i as f64));
        assert!(history.len() <= WINDOW);
    }
    assert_eq!(history.len(), WINDOW);
    for i in 0..10usize {
        assert_eq!(history.get(i).unwrap().timestamp, 990 + i as u64);
    }
}

#[test]
fn divisor_is_the_elapsed_time() {
    assert_eq!(sample(10, 1.0).divisor(0), 10);
    assert_eq!(sample(10, 1.0).divisor(4), 6);
    assert_eq!(sample(11, 1.0).divisor(10), 1);
    assert_eq!(sample(u64::MAX, 1.0).divisor(0), u64::MAX);
    assert_eq!(sample(u64::MAX, 1.0).divisor(1), u64::MAX - 1);
}

#[test]
fn divisor_is_one_where_no_time_elapsed() {
    assert_eq!(sample(0, 1.0).divisor(0), 1);
    assert_eq!(sample(10, 1.0).divisor(10), 1);
    assert_eq!(sample(u64::MAX, 1.0).divisor(u64::MAX), 1);
}

#[test]
fn divisor_wraps_where_the_sample_is_older() {
    assert_eq!(sample(5, 1.0).divisor(100), u64::MAX - 94);
    assert_eq!(sample(0, 1.0).divisor(1), u64::MAX);
    assert_eq!(sample(0, 1.0).divisor(u64::MAX), 1);
    assert_eq!(sample(1, 1.0).divisor(u64::MAX), 2);
}
