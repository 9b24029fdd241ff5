use mouse_trail::stream::{drain_samples, frame_tick, sample_channel, send_sample, CHANNEL_CAP};
use mouse_trail::trail::TrailBuffer;

#[test]
fn drain_preserves_arrival_order() {
    // Samples come back out of the channel in exactly the order they were
    // pushed in.
    let (tx, rx) = sample_channel();
    assert!(send_sample(&tx, 1, 10));
    assert!(send_sample(&tx, 2, 20));
    assert!(send_sample(&tx, 3, 30));
    let samples = drain_samples(&rx);
    assert_eq!(samples, vec![(1, 10), (2, 20), (3, 30)]);
}

#[test]
fn drain_of_empty_channel_is_empty() {
    let (_tx, rx) = sample_channel();
    assert_eq!(drain_samples(&rx), Vec::new());
}

#[test]
fn drain_takes_at_most_the_capacity() {
    let (tx, rx) = sample_channel();
    for i in 0..CHANNEL_CAP {
        assert!(send_sample(&tx, i as i32, 0));
    }
    let samples = drain_samples(&rx);
    assert_eq!(samples.len(), CHANNEL_CAP);
    for (i, s) in samples.iter().enumerate() {
        assert_eq!(*s, (i as i32, 0));
    }
}

#[test]
fn send_fails_once_receiver_is_gone() {
    let (tx, rx) = sample_channel();
    drop(rx);
    assert!(!send_sample(&tx, 1, 1));
}

#[test]
fn frame_tick_folds_the_drained_batch() {
    let (tx, rx) = sample_channel();
    assert!(send_sample(&tx, 40, 0));
    assert!(send_sample(&tx, 10, 0));
    let mut b = TrailBuffer::new();
    let samples = frame_tick(&mut b, &rx);
    assert_eq!(samples, vec![(40, 0), (10, 0)]);
    assert_eq!(b.head(), 118);
    assert_eq!(b.sum_at(119), (40, 0));
    assert_eq!(b.sum_at(118), (50, 0));
    // The channel is now empty: an idle tick counts up instead.
    let samples = frame_tick(&mut b, &rx);
    assert!(samples.is_empty());
    assert_eq!(b.idle_ticks(), 1);
}
