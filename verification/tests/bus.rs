use piton::broadcast::{pair, try_pair};
use piton::types::le::u32le;
use piton::{BufR, BufW, BusRx, BusTx, Error};

#[test]
fn every_subscriber_gets_its_own_copy() {
    let (mut tx, mut first) = pair::<u32le>(8);
    first.set_spin_limit(0);
    let mut second = first.clone();
    let mut third = first.subscribe();
    let mut msg = tx.allocate().unwrap();
    assert_eq!(msg.as_ref().get(), 0);
    *msg.as_mut() = u32le::new(42);
    tx.send(msg).unwrap();
    assert_eq!(first.recv().unwrap().unwrap().as_ref().get(), 42);
    assert_eq!(second.recv().unwrap().unwrap().as_ref().get(), 42);
    assert_eq!(third.recv().unwrap().unwrap().as_ref().get(), 42);
    let mut fourth = first.subscribe();
    assert!(matches!(fourth.recv(), Ok(None)));
    assert!(matches!(first.recv(), Ok(None)));
    assert!(matches!(second.recv(), Ok(None)));
    assert!(matches!(third.recv(), Ok(None)));
}

#[test]
fn bus_delivers_in_order() {
    let (mut tx, mut rx) = pair::<u32le>(256);
    rx.set_spin_limit(0);
    for seq in 0..120u32 {
        let mut msg = tx.allocate().unwrap();
        *msg.as_mut() = u32le::new(seq);
        tx.send(msg).unwrap();
    }
    for seq in 0..120u32 {
        assert_eq!(rx.recv().unwrap().unwrap().as_ref().get(), seq);
    }
    assert!(matches!(rx.recv(), Ok(None)));
}

#[test]
fn full_bus_is_a_send_failure() {
    let (mut tx, mut rx) = pair::<u32le>(2);
    rx.set_spin_limit(0);
    let mut sent = 0;
    loop {
        let msg = tx.allocate().unwrap();
        match tx.send(msg) {
            Ok(()) => sent += 1,
            Err(e) => {
                assert_eq!(e, Error::TxFail);
                break;
            }
        }
        assert!(sent < 100);
    }
    assert!(sent >= 2);
    assert!(rx.recv().unwrap().is_some());
    let msg = tx.allocate().unwrap();
    assert_eq!(tx.send(msg), Ok(()));
}

#[test]
fn bus_without_sender_is_a_receive_failure() {
    let (tx, mut rx) = pair::<u32le>(4);
    rx.set_spin_limit(3);
    drop(tx);
    assert!(matches!(rx.recv(), Err(Error::RxFail)));
}

#[test]
fn a_late_subscriber_gets_no_replay() {
    let (mut tx, mut first) = pair::<u32le>(8);
    first.set_spin_limit(0);
    let mut second = first.clone();
    let mut third = first.subscribe();
    for n in [5, 6] {
        let mut msg = tx.allocate().unwrap();
        *msg.as_mut() = u32le::new(n);
        tx.send(msg).unwrap();
    }
    let mut fourth = first.clone();
    let mut more = tx.clone();
    let mut msg = more.allocate().unwrap();
    *msg.as_mut() = u32le::new(7);
    more.send(msg).unwrap();
    assert_eq!(fourth.recv().unwrap().unwrap().as_ref().get(), 7);
    assert!(matches!(fourth.recv(), Ok(None)));
    for rx in [&mut first, &mut second, &mut third] {
        for n in [5, 6, 7] {
            assert_eq!(rx.recv().unwrap().unwrap().as_ref().get(), n);
        }
        assert!(matches!(rx.recv(), Ok(None)));
    }
    let mut fifth = second.subscribe();
    assert!(matches!(fifth.recv(), Ok(None)));
}

#[test]
fn a_bus_above_the_largest_capacity_is_not_made() {
    assert!(try_pair::<u32le>(8).is_some());
    assert!(try_pair::<u32le>(0x10000).is_some());
    assert!(try_pair::<u32le>(0x10001).is_none());
    assert!(try_pair::<u32le>(u64::MAX).is_none());
}
