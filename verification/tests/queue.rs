use whisper_desktop::relay::queue::{
    backoff_secs, FlushRetry, MessageQueue, QueuedMessage, RetryAction,
};

#[test]
fn test_enqueue_dequeue() {
    let mut queue = MessageQueue::new();

    queue.enqueue([1u8; 32], vec![1, 2, 3], 100);
    queue.enqueue([2u8; 32], vec![4, 5, 6], 101);

    assert_eq!(queue.len(), 2);

    let msg = queue.dequeue().unwrap();
    assert_eq!(msg.recipient, [1u8; 32]);
    assert_eq!(msg.payload, vec![1, 2, 3]);

    assert_eq!(queue.len(), 1);
}

#[test]
fn test_queue_peek() {
    let mut queue = MessageQueue::new();

    assert!(queue.peek().is_none());

    queue.enqueue([1u8; 32], vec![1, 2, 3], 100);

    let msg = queue.peek().unwrap();
    assert_eq!(msg.recipient, [1u8; 32]);

    // Peek doesn't remove
    assert_eq!(queue.len(), 1);
}

#[test]
fn test_queue_clear() {
    let mut queue = MessageQueue::new();

    queue.enqueue([1u8; 32], vec![1, 2, 3], 100);
    queue.enqueue([2u8; 32], vec![4, 5, 6], 101);

    queue.clear();

    assert!(queue.is_empty());
}

#[test]
fn reloaded_queue_keeps_order() {
    let mut queue = MessageQueue::new();
    queue.enqueue([1u8; 32], vec![1, 2, 3], 100);
    queue.enqueue([2u8; 32], vec![4, 5, 6], 101);
    let saved = queue.messages();
    let reloaded = MessageQueue::from_messages(saved);
    assert_eq!(reloaded.len(), 2);
    let front = reloaded.peek().unwrap();
    assert_eq!(front.recipient, [1u8; 32]);
    assert_eq!(front.queued_at, 100);
    assert_eq!(front.attempts, 0);
}

#[test]
fn flush_sends_oldest_first_and_stops_when_offline() {
    let mut queue = MessageQueue::new();
    queue.enqueue([1u8; 32], vec![1], 1);
    queue.enqueue([2u8; 32], vec![2], 2);
    assert!(queue.flush_next(false).is_none());
    assert_eq!(queue.len(), 2);
    let first = queue.flush_next(true).unwrap();
    assert_eq!(first.recipient, [1u8; 32]);
    let (sent, go_on) = queue.flush_report(first, true, 0);
    assert_eq!((sent, go_on), (1, true));
    assert_eq!(queue.len(), 1);
}

#[test]
fn failed_message_is_retried_then_dropped() {
    let mut queue = MessageQueue::new().with_max_retries(2);
    queue.enqueue([1u8; 32], vec![1], 1);
    let msg = queue.flush_next(true).unwrap();
    let (sent, go_on) = queue.flush_report(msg, false, 0);
    assert_eq!((sent, go_on), (0, false));
    assert_eq!(queue.len(), 1);
    let msg: QueuedMessage = queue.flush_next(true).unwrap();
    assert_eq!(msg.attempts, 1);
    let (sent, go_on) = queue.flush_report(msg, false, 0);
    assert_eq!((sent, go_on), (0, true));
    assert!(queue.is_empty());
    assert!(queue.flush_next(true).is_none());
}

#[test]
fn backoff_doubles_up_to_the_cap() {
    let delays: Vec<u64> = (0..8).map(|a| backoff_secs(a, 5)).collect();
    assert_eq!(delays, vec![1, 2, 4, 8, 16, 32, 32, 32]);
    assert_eq!(backoff_secs(u32::MAX, 6), 64);
}

#[test]
fn flush_with_retry_waits_flushes_and_finishes() {
    let mut retry = FlushRetry::new(3);
    // Disconnected: wait 1, then 2 seconds, each counting an attempt.
    assert_eq!(retry.next(false, false), RetryAction::Wait(1));
    assert_eq!(retry.next(false, false), RetryAction::Wait(2));
    // Connected: flush; two messages went out but some are left.
    assert_eq!(retry.next(false, true), RetryAction::Flush);
    assert!(retry.attempts_left());
    retry.flushed(Some(2), false);
    assert_eq!(retry.total_sent(), 2);
    // A failed flush uses up the last attempt.
    assert_eq!(retry.next(false, true), RetryAction::Flush);
    retry.flushed(None, false);
    assert!(!retry.attempts_left());
    assert_eq!(retry.next(false, true), RetryAction::Finish(2));
}

#[test]
fn flush_with_retry_stops_once_the_queue_is_empty() {
    let mut retry = FlushRetry::new(5);
    assert_eq!(retry.next(true, true), RetryAction::Finish(0));
    assert_eq!(retry.next(false, true), RetryAction::Flush);
    retry.flushed(Some(3), true);
    assert_eq!(retry.next(false, true), RetryAction::Finish(3));
    assert_eq!(FlushRetry::new(0).next(false, true), RetryAction::Finish(0));
}

#[test]
fn flush_with_every_send_delivered_empties_the_queue() {
    let mut queue = MessageQueue::new();
    for i in 0..3u8 {
        queue.enqueue([i; 32], vec![i], i as u64);
    }
    let mut sent = 0usize;
    let mut order = Vec::new();
    while let Some(msg) = queue.flush_next(true) {
        order.push(msg.recipient[0]);
        let (now_sent, go_on) = queue.flush_report(msg, true, sent);
        sent = now_sent;
        assert!(go_on);
    }
    assert_eq!(sent, 3);
    assert_eq!(order, vec![0, 1, 2]);
    assert!(queue.is_empty());
}
