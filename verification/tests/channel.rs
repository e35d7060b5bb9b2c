use minirt::channel::ChannelPair;
use minirt::note::Notification;

#[test]
fn new_channel_is_empty_and_open() {
    let mut chan: ChannelPair<u32> = ChannelPair::new();
    assert!(chan.is_empty());
    assert_eq!(chan.len(), 0);
    assert!(chan.has_receiver());
    assert_eq!(chan.recv(), None);
}

#[test]
fn messages_arrive_in_order() {
    let mut chan = ChannelPair::new();
    assert_eq!(chan.send(1u32), Ok(()));
    assert_eq!(chan.send(2), Ok(()));
    assert_eq!(chan.send(3), Ok(()));
    assert_eq!(chan.len(), 3);
    assert!(!chan.is_empty());
    assert_eq!(chan.recv(), Some(1));
    assert_eq!(chan.send(4), Ok(()));
    assert_eq!(chan.recv(), Some(2));
    assert_eq!(chan.recv(), Some(3));
    assert_eq!(chan.recv(), Some(4));
    assert_eq!(chan.recv(), None);
}

#[test]
fn closed_channel_hands_the_value_back() {
    let mut chan = ChannelPair::new();
    assert_eq!(chan.send("a"), Ok(()));
    chan.close();
    assert!(!chan.has_receiver());
    assert_eq!(chan.len(), 0);
    assert_eq!(chan.send("b"), Err("b"));
    assert_eq!(chan.len(), 0);
    assert_eq!(chan.recv(), None);
}

#[test]
fn discard_removes_every_copy_and_keeps_order() {
    let mut chan = ChannelPair::new();
    for id in [5u64, 1, 5, 2, 5, 5, 3] {
        chan.send(Notification::new(id)).unwrap();
    }
    assert_eq!(chan.discard(5), 4);
    assert_eq!(chan.len(), 3);
    assert_eq!(chan.discard(5), 0);
    assert_eq!(chan.discard(9), 0);
    assert_eq!(chan.recv(), Some(Notification { id: 1 }));
    assert_eq!(chan.recv(), Some(Notification { id: 2 }));
    assert_eq!(chan.recv(), Some(Notification { id: 3 }));
    assert_eq!(chan.recv(), None);
}
