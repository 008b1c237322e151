use reiter::sattel::progress::ProgressCoalescer;
use reiter::sattel::{ProgressBarEvent, ProgressBarKind};

#[test]
fn advances_are_throttled_to_every_hundredth() {
    let mut throttle = ProgressCoalescer::new();
    let mut forwarded = Vec::new();
    for n in 1..=250u32 {
        if throttle.offer(&ProgressBarEvent::Advance { progress: n }) {
            forwarded.push(n);
        }
    }
    assert_eq!(forwarded, vec![100, 200]);
    assert_eq!(throttle.pending_advances(), 50);
    assert!(throttle.offer(&ProgressBarEvent::Done));
    assert_eq!(throttle.pending_advances(), 50);
}

#[test]
fn other_updates_always_pass() {
    let mut throttle = ProgressCoalescer::new();
    assert_eq!(throttle.pending_advances(), 0);
    assert!(throttle.offer(&ProgressBarEvent::Begin { bar: ProgressBarKind::Download, path: "p".to_owned() }));
    assert!(throttle.offer(&ProgressBarEvent::SetTotal { total: 3 }));
    assert!(throttle.offer(&ProgressBarEvent::Done));
    assert_eq!(throttle.pending_advances(), 0);
    for _ in 0..99 {
        assert!(!throttle.offer(&ProgressBarEvent::Advance { progress: 1 }));
    }
    assert_eq!(throttle.pending_advances(), 99);
    assert!(throttle.offer(&ProgressBarEvent::Advance { progress: 1 }));
    assert_eq!(throttle.pending_advances(), 0);
}
