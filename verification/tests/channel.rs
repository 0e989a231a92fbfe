use teritorimon::channel::{self, ChannelError};

#[test]
fn try_send_on_a_full_queue_fails_without_blocking() {
    // A queue of one slot: the second rapid send must fail at once.
    let (mut sender, _receiver) = channel::new::<u32>(0);
    assert_eq!(sender.try_send(1), Ok(()));
    assert_eq!(sender.try_send(2), Err(ChannelError::Full));
}

#[test]
fn try_send_buffers_up_to_the_queue_size() {
    // A buffer of one plus the sender's own slot holds two messages.
    let (mut sender, _receiver) = channel::new::<u32>(1);
    assert_eq!(sender.try_send(1), Ok(()));
    assert_eq!(sender.try_send(2), Ok(()));
    assert_eq!(sender.try_send(3), Err(ChannelError::Full));
}

#[test]
fn try_send_after_receiver_gone_is_disconnected() {
    let (mut sender, receiver) = channel::new::<u32>(4);
    drop(receiver);
    assert_eq!(sender.try_send(1), Err(ChannelError::Disconnected));
}

#[test]
fn cloned_senders_share_the_queue() {
    let (mut sender, _receiver) = channel::new::<u32>(0);
    let mut clone = sender.clone();
    assert_eq!(sender.try_send(1), Ok(()));
    // The clone still has its own parked slot, then the queue is full.
    assert_eq!(clone.try_send(2), Ok(()));
    assert_eq!(clone.try_send(3), Err(ChannelError::Full));
}
