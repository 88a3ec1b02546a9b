use piton::bbq::{bus, channel, spin_wait, wait_step, Client, Server, Wait};
use piton::types::le::{u32le, u64le};
use piton::types::vec::Vec as BoundedVec;
use piton::{BufR, BufW, BusRx, BusTx, Error, Responder, ServiceRx, ServiceTx};
use std::sync::atomic::{AtomicUsize, Ordering};

#[test]
fn spin_wait_takes_one() {
    let signal = AtomicUsize::new(2);
    assert!(spin_wait(&signal, 0));
    assert_eq!(signal.load(Ordering::SeqCst), 1);
    assert!(spin_wait(&signal, 5));
    assert_eq!(signal.load(Ordering::SeqCst), 0);
    assert!(!spin_wait(&signal, 0));
    assert!(!spin_wait(&signal, 100));
    assert_eq!(signal.load(Ordering::SeqCst), 0);
}

#[test]
fn identities_count_up() {
    let mut server: Server<1024, u32le, u32le> = Server::default();
    assert_eq!(server.client_count(), 0);
    let a = server.client();
    let b = server.client();
    let c = server.client();
    assert_eq!((a.identity(), b.identity(), c.identity()), (0, 1, 2));
    assert_eq!(server.client_count(), 3);
}

#[test]
fn server_without_request_returns_none() {
    let mut server: Server<1024, u32le, u32le> = Server::default();
    let _client = server.client();
    server.set_spin_limit(10);
    assert!(matches!(server.recv(), Ok(None)));
}

#[test]
fn call_without_server_fails_after_the_wait() {
    let mut server: Server<1024, u32le, u32le> = Server::default();
    let mut client = server.client();
    client.set_spin_limit(10);
    let msg = client.allocate().unwrap();
    assert!(matches!(client.call(msg), Err(Error::RxFail)));
}

fn serve_one(server: &mut Server<1024, u64le, u64le>) -> usize {
    let mut recv = server.recv().unwrap().unwrap();
    let asked = recv.req.as_ref().get();
    assert_eq!(recv.req.sender_id(), recv.responder.client_id() as u64);
    assert_eq!(recv.resp.sender_id(), recv.responder.client_id() as u64);
    assert_eq!(asked % 1000, recv.responder.client_id() as u64);
    assert_eq!(recv.resp.as_ref().get(), 0);
    *recv.resp.as_mut() = u64le::new(asked * 2 + 1);
    let to = recv.responder.client_id();
    recv.responder.send(recv.resp).unwrap();
    to
}

#[test]
fn each_client_gets_the_reply_to_its_own_request() {
    let mut server: Server<1024, u64le, u64le> = Server::default();
    server.set_spin_limit(10);
    let mut clients: Vec<Client<1024, u64le, u64le>> = (0..4).map(|_| server.client()).collect();
    for round in 0..3u64 {
        for client in clients.iter_mut().rev() {
            let mut msg = client.allocate().unwrap();
            assert_eq!(msg.as_ref().get(), 0);
            assert_eq!(msg.sender_id(), client.identity() as u64);
            *msg.as_mut() = u64le::new(1000 * round + client.identity() as u64);
            assert_eq!(msg.sender_id(), client.identity() as u64);
            client.post(msg);
        }
        let served: Vec<usize> = (0..4).map(|_| serve_one(&mut server)).collect();
        assert_eq!(served, vec![3, 2, 1, 0]);
        for client in clients.iter_mut() {
            let reply = client.poll().unwrap().unwrap();
            assert_eq!(reply.sender_id(), client.identity() as u64);
            let nonce = 1000 * round + client.identity() as u64;
            assert_eq!(reply.as_ref().get(), nonce * 2 + 1);
            assert!(matches!(client.poll(), Ok(None)));
        }
    }
}

#[test]
fn requests_arrive_in_send_order() {
    let (mut tx, mut rx) = bus::<4096, u32le>();
    rx.set_spin_limit(0);
    for seq in 0..150u32 {
        let mut msg = tx.allocate().unwrap();
        *msg.as_mut() = u32le::new(seq);
        tx.send(msg).unwrap();
        if seq % 3 == 2 {
            for back in (seq - 2)..=seq {
                assert_eq!(rx.recv().unwrap().unwrap().as_ref().get(), back);
            }
        }
    }
    assert!(matches!(rx.recv(), Ok(None)));
}

#[test]
fn full_queue_is_a_capacity_error() {
    let (tx, mut rx) = channel::<64>();
    rx.set_spin_limit(0);
    let mut wide = tx.allocate::<u64le>().unwrap();
    *wide.as_mut() = u64le::new(11);
    tx.send(wide);
    let mut small = tx.allocate::<bool>().unwrap();
    *small.as_mut() = true;
    tx.send(small);
    assert!(matches!(tx.allocate::<bool>(), Err(Error::BufferOverflow)));
    assert!(matches!(tx.allocate::<bool>(), Err(Error::BufferOverflow)));
    assert_eq!(rx.take::<u64le>().unwrap().unwrap().as_ref().get(), 11);
    let mut more = tx.allocate::<bool>().unwrap();
    *more.as_mut() = false;
    tx.send(more);
    assert_eq!(rx.take::<bool>().unwrap().unwrap().as_ref(), &true);
    assert_eq!(rx.take::<bool>().unwrap().unwrap().as_ref(), &false);
    assert!(matches!(rx.take::<bool>(), Ok(None)));
}

#[test]
fn frame_larger_than_the_queue_is_a_capacity_error() {
    let (mut tx, _rx) = bus::<16, u64le>();
    assert!(matches!(tx.allocate(), Err(Error::BufferOverflow)));
}

#[test]
fn second_grant_while_one_is_out_is_refused() {
    let mut server: Server<1024, u32le, u32le> = Server::default();
    let mut client = server.client();
    let first = client.allocate().unwrap();
    assert!(matches!(client.allocate(), Err(Error::BufferOverflow)));
    client.post(first);
    assert!(client.allocate().is_ok());
}

#[test]
fn invalid_frame_does_not_block_the_next() {
    let (tx, mut rx) = channel::<256>();
    rx.set_spin_limit(0);
    let mut bad = tx.allocate::<u8>().unwrap();
    *bad.as_mut() = 0x5a;
    tx.send(bad);
    let mut good = tx.allocate::<bool>().unwrap();
    *good.as_mut() = true;
    tx.send(good);
    assert!(matches!(rx.take::<bool>(), Err(Error::InvalidMsg)));
    assert_eq!(rx.take::<bool>().unwrap().unwrap().as_ref(), &true);
    assert!(matches!(rx.take::<bool>(), Ok(None)));
}

#[test]
fn request_with_unknown_sender_is_invalid() {
    let mut server: Server<1024, u32le, u32le> = Server::default();
    server.set_spin_limit(0);
    let mut one = server.client();
    let mut two = server.client();
    let mut lone: Server<1024, u32le, u32le> = Server::default();
    lone.set_spin_limit(0);
    let mut first = lone.client();
    assert_eq!((one.identity(), two.identity(), first.identity()), (0, 1, 0));
    let msg = two.allocate().unwrap();
    two.post(msg);
    assert!(server.recv().unwrap().is_some());
    let msg = one.allocate().unwrap();
    one.post(msg);
    let msg = first.allocate().unwrap();
    first.post(msg);
    assert_eq!(lone.recv().unwrap().unwrap().responder.client_id(), 0);
}

#[test]
fn composite_messages_travel() {
    let (mut tx, mut rx) = bus::<1024, BoundedVec<[u32le; 2], 3>>();
    rx.set_spin_limit(0);
    let mut msg = tx.allocate().unwrap();
    assert_eq!(msg.as_ref().len(), 0);
    msg.as_mut().push([u32le::new(1), u32le::new(2)]).unwrap();
    msg.as_mut().push([u32le::new(3), u32le::new(4)]).unwrap();
    tx.send(msg).unwrap();
    let got = rx.recv().unwrap().unwrap();
    assert_eq!(
        got.as_ref().as_slice(),
        &[[u32le::new(1), u32le::new(2)], [u32le::new(3), u32le::new(4)]]
    );
}

#[test]
fn room_at_the_start_must_exceed_the_frame() {
    let (tx, mut rx) = channel::<64>();
    rx.set_spin_limit(0);
    for n in 0..2u64 {
        let mut msg = tx.allocate::<u64le>().unwrap();
        *msg.as_mut() = u64le::new(n);
        tx.send(msg);
    }
    assert!(matches!(tx.allocate::<u64le>(), Err(Error::BufferOverflow)));
    assert_eq!(rx.take::<u64le>().unwrap().unwrap().as_ref().get(), 0);
    assert!(matches!(tx.allocate::<u64le>(), Err(Error::BufferOverflow)));
    assert_eq!(rx.take::<u64le>().unwrap().unwrap().as_ref().get(), 1);
    let mut msg = tx.allocate::<u64le>().unwrap();
    *msg.as_mut() = u64le::new(2);
    tx.send(msg);
    assert_eq!(rx.take::<u64le>().unwrap().unwrap().as_ref().get(), 2);
}

#[test]
fn a_waiter_takes_gives_up_or_spins() {
    assert_eq!(wait_step(true, 0, 0), Wait::Take);
    assert_eq!(wait_step(true, 7, 3), Wait::Take);
    assert_eq!(wait_step(false, 0, 0), Wait::GiveUp);
    assert_eq!(wait_step(false, 3, 3), Wait::GiveUp);
    assert_eq!(wait_step(false, 2, 3), Wait::Spin);
    assert_eq!(wait_step(false, 0, u64::MAX), Wait::Spin);
}

#[test]
fn a_failed_reply_grant_is_a_capacity_error() {
    let mut server: Server<64, u64le, u64le> = Server::default();
    server.set_spin_limit(0);
    let mut client = server.client();
    client.set_spin_limit(0);
    for round in 0..2u64 {
        let mut msg = client.allocate().unwrap();
        *msg.as_mut() = u64le::new(round);
        client.post(msg);
        let recv = server.recv().unwrap().unwrap();
        assert_eq!(recv.req.as_ref().get(), round);
        recv.responder.send(recv.resp).unwrap();
    }
    let msg = client.allocate().unwrap();
    client.post(msg);
    assert!(matches!(server.recv(), Err(Error::BufferOverflow)));
    assert!(matches!(server.recv(), Ok(None)));
    assert_eq!(client.poll().unwrap().unwrap().as_ref().get(), 0);
    assert_eq!(client.poll().unwrap().unwrap().as_ref().get(), 0);
    assert!(matches!(client.poll(), Ok(None)));
}

#[test]
fn a_queue_end_writes_its_own_identity() {
    let (tx, mut rx) = channel::<256>();
    rx.set_spin_limit(0);
    assert_eq!(tx.identity(), 0);
    let msg = tx.allocate::<u32le>().unwrap();
    assert_eq!(msg.sender_id(), 0);
    tx.send(msg);
    let frame = rx.recv().unwrap().unwrap();
    assert_eq!(&frame.bytes[..8], &[0u8; 8]);
    let mut server: Server<256, u32le, u32le> = Server::default();
    server.set_spin_limit(0);
    let _zero = server.client();
    let _one = server.client();
    let mut two = server.client();
    let msg = two.allocate().unwrap();
    two.post(msg);
    let recv = server.recv().unwrap().unwrap();
    assert_eq!(recv.req.sender_id(), 2);
    assert_eq!(recv.responder.client_id(), 2);
    assert_eq!(recv.resp.sender_id(), 2);
}
