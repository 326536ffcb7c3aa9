use shared_channel::shared_channel;

#[test]
fn smoke() {
    let (tx, rx) = shared_channel::<i32>();
    tx.send(1).unwrap();
    assert_eq!(rx.recv().unwrap(), 1);
}

#[test]
fn smoke_multi_sender() {
    let (tx, rx) = shared_channel::<i32>();
    tx.send(1).unwrap();
    assert_eq!(rx.recv().unwrap(), 1);
    let tx = tx.clone();
    tx.send(1).unwrap();
    assert_eq!(rx.recv().unwrap(), 1);
}

#[test]
fn smoke_multi_receiver() {
    let (tx, rx) = shared_channel::<i32>();
    let rx2 = rx.clone();
    tx.send(1).unwrap();
    tx.send(2).unwrap();
    assert_eq!(rx.recv().unwrap(), 1);
    assert_eq!(rx2.recv().unwrap(), 2);
}

#[test]
fn smoke_port_gone() {
    let (tx, rx) = shared_channel::<i32>();
    drop(rx);
    assert!(tx.send(1).is_err());
}

#[test]
fn smoke_chan_gone() {
    let (tx, rx) = shared_channel::<i32>();
    drop(tx);
    assert!(rx.recv().is_err());
}
