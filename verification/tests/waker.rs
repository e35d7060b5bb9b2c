use minirt::channel::ChannelPair;
use minirt::note::{Notification, SenderId, ROOT_ID, SHUTDOWN_ID};
use minirt::waker::{SharedNote, Waker};

#[test]
fn reserved_ids() {
    assert_eq!(SHUTDOWN_ID, u64::MAX);
    assert_eq!(ROOT_ID, u64::MAX - 1);
    assert!(Notification::shutdown().is_shutdown());
    assert!(Notification::shutdown().is_reserved());
    assert!(!Notification::shutdown().is_root());
    assert!(Notification::root().is_root());
    assert!(Notification::root().is_reserved());
    assert!(!Notification::root().is_shutdown());
    let n = Notification::new(12);
    assert_eq!(n.id, 12);
    assert!(!n.is_reserved());
    assert_eq!(n, Notification { id: 12 });
}

#[test]
fn make_waker_starts_with_one_reference() {
    let (shared, waker) = SharedNote::make_waker(Notification::new(3), SenderId::Main);
    assert_eq!(shared.ref_count(), 1);
    assert_eq!(waker, Waker { id: 3, sender: SenderId::Main });
    assert_eq!(shared.notification(), Notification { id: 3 });
    assert_eq!(shared.sender_id(), SenderId::Main);
    assert_eq!(waker.notification(), Notification { id: 3 });
}

#[test]
fn freed_exactly_when_drops_match_construction_and_clones() {
    let (mut shared, first) = SharedNote::make_waker(Notification::new(1), SenderId::Worker);
    let mut handles = vec![first];
    for expected in 2..=5u64 {
        handles.push(shared.clone_waker());
        assert_eq!(shared.ref_count(), expected);
    }
    // Five handles: four releases leave it alive, the fifth frees it.
    let mut left = 5u64;
    while let Some(w) = handles.pop() {
        let freed = shared.drop_waker(w);
        left -= 1;
        assert_eq!(shared.ref_count(), left);
        assert_eq!(freed, left == 0);
    }
    assert_eq!(shared.ref_count(), 0);
}

#[test]
fn clone_and_drop_interleaved() {
    let (mut shared, a) = SharedNote::make_waker(Notification::new(1), SenderId::Worker);
    let b = shared.clone_waker();
    assert!(a.will_wake(&b));
    assert!(!shared.drop_waker(a));
    let c = shared.clone_waker();
    let d = shared.clone_waker();
    assert_eq!(shared.ref_count(), 3);
    assert!(!shared.drop_waker(b));
    assert!(!shared.drop_waker(c));
    assert_eq!(shared.ref_count(), 1);
    assert!(shared.drop_waker(d));
}

#[test]
fn will_wake_compares_id_and_sender() {
    let a = Waker { id: 1, sender: SenderId::Worker };
    assert!(a.will_wake(&Waker { id: 1, sender: SenderId::Worker }));
    assert!(!a.will_wake(&Waker { id: 2, sender: SenderId::Worker }));
    assert!(!a.will_wake(&Waker { id: 1, sender: SenderId::Main }));
}

#[test]
fn wake_by_ref_sends_and_keeps_the_count() {
    let (shared, waker) = SharedNote::make_waker(Notification::new(8), SenderId::Worker);
    let mut chan = ChannelPair::new();
    assert!(waker.wake_by_ref(&mut chan));
    assert!(waker.wake_by_ref(&mut chan));
    assert_eq!(shared.ref_count(), 1);
    assert_eq!(chan.len(), 2);
    assert_eq!(chan.recv(), Some(Notification { id: 8 }));
    assert_eq!(chan.recv(), Some(Notification { id: 8 }));
    assert_eq!(chan.recv(), None);
}

#[test]
fn wake_sends_then_releases() {
    let (mut shared, first) = SharedNote::make_waker(Notification::new(8), SenderId::Worker);
    let second = shared.clone_waker();
    let mut chan = ChannelPair::new();
    assert!(!shared.wake(second, &mut chan));
    assert_eq!(shared.ref_count(), 1);
    assert_eq!(chan.len(), 1);
    assert!(shared.wake(first, &mut chan));
    assert_eq!(shared.ref_count(), 0);
    assert_eq!(chan.recv(), Some(Notification { id: 8 }));
    assert_eq!(chan.recv(), Some(Notification { id: 8 }));
}

#[test]
fn wake_without_receiver_is_discarded() {
    let (mut shared, first) = SharedNote::make_waker(Notification::new(8), SenderId::Worker);
    let mut chan = ChannelPair::new();
    chan.close();
    assert!(!first.wake_by_ref(&mut chan));
    assert_eq!(chan.len(), 0);
    // The consuming wake still releases its reference.
    assert!(shared.wake(first, &mut chan));
    assert_eq!(chan.len(), 0);
    assert!(!chan.has_receiver());
}
