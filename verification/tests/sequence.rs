use shared_channel::{shared_channel, yielded, SharedReceiver};
use std::sync::mpsc::{RecvError, Sender, TryRecvError};

#[test]
fn sequence_yields_in_order_and_ends_at_disconnect() {
    let (tx, rx) = shared_channel::<i32>();
    tx.send(3).unwrap();
    tx.send(1).unwrap();
    tx.send(2).unwrap();
    drop(tx);
    let mut messages = rx.iter();
    assert_eq!(messages.next(), Some(3));
    assert_eq!(messages.next(), Some(1));
    assert_eq!(messages.next(), Some(2));
    assert_eq!(messages.next(), None);
    assert_eq!(messages.next(), None);
}

#[test]
fn sequence_taken_again_ends_at_once() {
    let (tx, rx) = shared_channel::<i32>();
    tx.send(1).unwrap();
    drop(tx);
    let mut first = rx.iter();
    assert_eq!(first.next(), Some(1));
    assert_eq!(first.next(), None);
    let mut second = rx.iter();
    assert_eq!(second.next(), None);
    let other = rx.clone();
    assert_eq!(other.iter().next(), None);
}

#[test]
fn sequences_of_two_handles_share_the_queue() {
    let (tx, rx) = shared_channel::<i32>();
    let rx2 = rx.clone();
    for i in 0..4 {
        tx.send(i).unwrap();
    }
    drop(tx);
    let mut a = rx.iter();
    let mut b = rx2.iter();
    assert_eq!(a.next(), Some(0));
    assert_eq!(b.next(), Some(1));
    assert_eq!(b.next(), Some(2));
    assert_eq!(a.next(), Some(3));
    assert_eq!(b.next(), None);
    assert_eq!(a.next(), None);
}

#[test]
fn eight_senders_are_drained_to_the_last_message() {
    let amount: u32 = 10000;
    let (tx, rx) = shared_channel::<u32>();
    let senders: Vec<Sender<u32>> = (0..8).map(|_| tx.clone()).collect();
    drop(tx);
    for i in 0..amount {
        for sender in senders.iter() {
            sender.send(i).unwrap();
        }
    }
    drop(senders);
    let mut count: u32 = 0;
    let mut messages = rx.iter();
    while let Some(_) = messages.next() {
        count += 1;
    }
    assert_eq!(count, 80000);
    assert_eq!(rx.try_recv(), Err(TryRecvError::Disconnected));
}

#[test]
fn eight_handles_drain_what_four_senders_sent() {
    let amount: u32 = 10000;
    let (tx, rx) = shared_channel::<u32>();
    let senders: Vec<Sender<u32>> = (0..4).map(|_| tx.clone()).collect();
    drop(tx);
    for sender in senders.iter() {
        for i in 1..amount + 1 {
            sender.send(i).unwrap();
        }
    }
    drop(senders);
    let handles: Vec<SharedReceiver<u32>> = (0..8).map(|_| rx.clone()).collect();
    drop(rx);
    let mut sums: Vec<u32> = vec![0; 8];
    let mut open: usize = 8;
    let mut turn: usize = 0;
    while open > 0 {
        let who = turn % 8;
        match handles[who].iter().next() {
            Some(i) => sums[who] += i,
            None => open -= 1,
        }
        turn += 1;
        if open < 8 {
            open = 0;
            for handle in handles.iter() {
                assert_eq!(handle.iter().next(), None);
            }
        }
    }
    let sum: u32 = sums.iter().sum();
    assert_eq!(amount * (amount + 1) / 2 * 4, sum);
}

#[test]
fn yielded_is_the_message_or_the_end() {
    assert_eq!(yielded(Ok::<i32, RecvError>(7)), Some(7));
    assert_eq!(yielded(Ok::<i32, RecvError>(0)), Some(0));
    assert_eq!(yielded(Err::<i32, RecvError>(RecvError)), None);
    assert_eq!(yielded(Ok::<Option<u8>, RecvError>(None)), Some(None));
}
