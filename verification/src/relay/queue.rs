//! Message queue for offline handling.
//!
//! Queues outgoing messages when offline and flushes them, oldest first, on
//! reconnect. A message that fails to send is retried until it has failed
//! `max_retries` times, then dropped.

use vstd::prelude::*;
use vstd::string::*;
use crate::relay::client::relay_error_text;
use crate::text::joined;
use std::collections::VecDeque;
use crate::relay::client::RelayError;
use vstd::arithmetic::power2::{
    lemma2_to64, lemma2_to64_rest, lemma_pow2_strictly_increases, lemma_pow2_unfold, pow2,
};

verus! {

/// Queued message for later sending
#[derive(Debug, Clone)]
pub struct QueuedMessage {
    pub recipient: [u8; 32],
    pub payload: Vec<u8>,
    pub queued_at: u64,
    pub attempts: u32,
}

/// A queued message as a mathematical value.
pub struct QueuedMessageView {
    pub recipient: Seq<u8>,
    pub payload: Seq<u8>,
    pub queued_at: u64,
    pub attempts: u32,
}

impl View for QueuedMessage {
    type V = QueuedMessageView;

    open spec fn view(&self) -> QueuedMessageView {
        QueuedMessageView {
            recipient: self.recipient@,
            payload: self.payload@,
            queued_at: self.queued_at,
            attempts: self.attempts,
        }
    }
}

impl QueuedMessage {
    /// A copy of this message.
    pub fn duplicate(&self) -> (m: QueuedMessage)
        ensures
            m@ == self@,
    {
        let payload = self.payload.clone();
        assert(payload@ =~= self.payload@);
        QueuedMessage {
            recipient: self.recipient,
            payload,
            queued_at: self.queued_at,
            attempts: self.attempts,
        }
    }
}

/// Queue errors
#[derive(Debug)]
pub enum QueueError {
    Io(String),
    Serialization(String),
    Send(RelayError),
    MaxRetries,
}

/// The number of retries a new queue allows.
pub const DEFAULT_MAX_RETRIES: u32 = 5;

/// Message queue.
pub struct MessageQueue {
    queue: VecDeque<QueuedMessage>,
    max_retries: u32,
}

/// The messages of a queue, front first.
pub open spec fn messages_view(q: Seq<QueuedMessage>) -> Seq<QueuedMessageView> {
    q.map_values(|m: QueuedMessage| m@)
}

/// The message as it stands after one more failed attempt.
pub open spec fn with_failed_attempt(m: QueuedMessageView) -> QueuedMessageView {
    QueuedMessageView { attempts: (m.attempts + 1) as u32, ..m }
}

/// What a flush does with a message that it took from the front of the
/// queue, given whether sending it succeeded: the queue after it, and
/// whether the flush goes on.
pub open spec fn flush_outcome(
    rest: Seq<QueuedMessageView>,
    m: QueuedMessageView,
    delivered: bool,
    max_retries: u32,
) -> (Seq<QueuedMessageView>, bool) {
    if delivered {
        (rest, true)
    } else if m.attempts + 1 >= max_retries {
        (rest, true)
    } else {
        (seq![with_failed_attempt(m)] + rest, false)
    }
}

/// `2^min(attempt, cap)`: the exponential backoff delay in seconds.
pub open spec fn backoff(attempt: nat, cap: nat) -> nat {
    pow2(if attempt < cap { attempt } else { cap })
}

/// The exponential backoff delay in seconds, `2^min(attempt, cap)`.
pub fn backoff_secs(attempt: u32, cap: u32) -> (secs: u64)
    requires
        cap <= 62,
    ensures
        secs == backoff(attempt as nat, cap as nat),
{
    let n = if attempt < cap {
        attempt
    } else {
        cap
    };
    let mut secs: u64 = 1;
    let mut i: u32 = 0;
    proof {
        lemma2_to64();
        lemma2_to64_rest();
    }
    while i < n
        invariant
            i <= n,
            n <= 62,
            secs == pow2(i as nat),
            pow2(62) == 0x4000_0000_0000_0000,
        decreases n - i,
    {
        proof {
            lemma_pow2_strictly_increases(i as nat, 62);
            lemma_pow2_unfold((i + 1) as nat);
        }
        secs = secs * 2;
        i = i + 1;
    }
    secs
}

/// The backoff delay grows with the attempt number and never passes
/// `2^cap`, which it reaches from attempt `cap` on.
pub proof fn law_backoff_monotone_and_capped(a: nat, b: nat, cap: nat)
    requires
        a <= b,
    ensures
        backoff(a, cap) <= backoff(b, cap),
        backoff(b, cap) <= pow2(cap),
        b >= cap ==> backoff(b, cap) == pow2(cap),
{
    let ea: nat = if a < cap { a } else { cap };
    let eb: nat = if b < cap { b } else { cap };
    if ea < eb {
        lemma_pow2_strictly_increases(ea, eb);
    }
    if eb < cap {
        lemma_pow2_strictly_increases(eb, cap);
    }
}

impl View for MessageQueue {
    type V = Seq<QueuedMessageView>;

    closed spec fn view(&self) -> Seq<QueuedMessageView> {
        messages_view(self.queue@)
    }
}

impl MessageQueue {
    /// The number of failed attempts after which a message is dropped.
    pub closed spec fn spec_max_retries(&self) -> u32 {
        self.max_retries
    }

    /// Create a new empty queue.
    pub fn new() -> (q: Self)
        ensures
            q@ == Seq::<QueuedMessageView>::empty(),
            q.spec_max_retries() == DEFAULT_MAX_RETRIES,
    {
        let q = MessageQueue { queue: VecDeque::new(), max_retries: DEFAULT_MAX_RETRIES };
        assert(q@ =~= Seq::<QueuedMessageView>::empty());
        q
    }

    /// Create a queue that holds the given messages, first one at the front
    /// (as a persisted queue is loaded back).
    pub fn from_messages(messages: Vec<QueuedMessage>) -> (q: Self)
        ensures
            q@ == messages_view(messages@),
            q.spec_max_retries() == DEFAULT_MAX_RETRIES,
    {
        let mut queue: VecDeque<QueuedMessage> = VecDeque::new();
        let mut rest = messages;
        let ghost all = rest@;
        // Take the messages from the back, pushing each at the front.
        while rest.len() > 0
            invariant
                rest@.len() <= all.len(),
                rest@ == all.subrange(0, rest@.len() as int),
                queue@ == all.subrange(rest@.len() as int, all.len() as int),
            decreases rest@.len(),
        {
            let m = rest.pop().unwrap();
            queue.push_front(m);
            assert(rest@ =~= all.subrange(0, rest@.len() as int));
            assert(queue@ =~= all.subrange(rest@.len() as int, all.len() as int));
        }
        assert(queue@ =~= all);
        MessageQueue { queue, max_retries: DEFAULT_MAX_RETRIES }
    }

    /// The queued messages, front first (what persisting the queue writes).
    pub fn messages(&self) -> (v: Vec<QueuedMessage>)
        ensures
            messages_view(v@) == self@,
    {
        let mut v: Vec<QueuedMessage> = Vec::new();
        let n = self.queue.len();
        let mut i: usize = 0;
        while i < n
            invariant
                i <= n,
                n == self.queue@.len(),
                v@.len() == i,
                forall|j: int| 0 <= j < i ==> v@[j]@ == self.queue@[j]@,
            decreases n - i,
        {
            v.push(self.queue[i].duplicate());
            i = i + 1;
        }
        assert(messages_view(v@) =~= self@);
        v
    }

    /// Set max retry attempts
    pub fn with_max_retries(self, max: u32) -> (q: Self)
        ensures
            q@ == self@,
            q.spec_max_retries() == max,
    {
        MessageQueue { queue: self.queue, max_retries: max }
    }

    /// Queue a message for sending, stamped with the time it was queued.
    pub fn enqueue(&mut self, recipient: [u8; 32], payload: Vec<u8>, queued_at: u64)
        ensures
            final(self)@ == old(self)@.push(
                QueuedMessageView {
                    recipient: recipient@,
                    payload: payload@,
                    queued_at,
                    attempts: 0,
                },
            ),
            final(self).spec_max_retries() == old(self).spec_max_retries(),
    {
        let msg = QueuedMessage { recipient, payload, queued_at, attempts: 0 };
        self.queue.push_back(msg);
        assert(self@ =~= old(self)@.push(msg@));
    }

    /// Get the next message without removing it
    pub fn peek(&self) -> (m: Option<QueuedMessage>)
        ensures
            self@.len() == 0 ==> m is None,
            self@.len() > 0 ==> (m matches Some(x) && x@ == self@[0]),
    {
        if self.queue.len() == 0 {
            None
        } else {
            Some(self.queue[0].duplicate())
        }
    }

    /// Remove the front message
    pub fn dequeue(&mut self) -> (m: Option<QueuedMessage>)
        ensures
            old(self)@.len() == 0 ==> (m is None && final(self)@ == old(self)@),
            old(self)@.len() > 0 ==> (m matches Some(x) && x@ == old(self)@[0] && final(self)@
                == old(self)@.drop_first()),
            final(self).spec_max_retries() == old(self).spec_max_retries(),
    {
        let m = self.queue.pop_front();
        assert(self@ =~= old(self)@.subrange(if old(self)@.len() > 0 { 1int } else { 0 }, old(self)@.len() as int));
        m
    }

    /// Get queue length
    pub fn len(&self) -> (n: usize)
        ensures
            n == self@.len(),
    {
        self.queue.len()
    }

    /// Check if queue is empty
    pub fn is_empty(&self) -> (b: bool)
        ensures
            b == (self@.len() == 0),
    {
        self.queue.len() == 0
    }

    /// Clear all queued messages
    pub fn clear(&mut self)
        ensures
            final(self)@ == Seq::<QueuedMessageView>::empty(),
            final(self).spec_max_retries() == old(self).spec_max_retries(),
    {
        self.queue.clear();
        assert(self@ =~= Seq::<QueuedMessageView>::empty());
    }

    /// One round of a flush: while the client is connected, take the front
    /// message to send it. `None` ends the flush.
    pub fn flush_next(&mut self, connected: bool) -> (m: Option<QueuedMessage>)
        ensures
            !connected || old(self)@.len() == 0 ==> (m is None && final(self)@ == old(self)@),
            connected && old(self)@.len() > 0 ==> (m matches Some(x) && x@ == old(self)@[0]
                && final(self)@ == old(self)@.drop_first()),
            final(self).spec_max_retries() == old(self).spec_max_retries(),
    {
        if !connected {
            return None;
        }
        self.dequeue()
    }

    /// The end of a flush round: a message taken by `flush_next` was sent or
    /// failed. A sent message counts; a failed one is put back at the front
    /// with one more attempt, which ends the flush, unless it has now failed
    /// `max_retries` times, when it is dropped. Returns the new count of sent
    /// messages and whether the flush goes on (the queue is persisted
    /// exactly when it does).
    pub fn flush_report(&mut self, msg: QueuedMessage, delivered: bool, sent: usize) -> (r: (
        usize,
        bool,
    ))
        requires
            sent < usize::MAX,
            msg.attempts < u32::MAX,
        ensures
            (final(self)@, r.1) == flush_outcome(old(self)@, msg@, delivered, old(self).spec_max_retries()),
            r.0 == if delivered { sent + 1 } else { sent as int },
            final(self).spec_max_retries() == old(self).spec_max_retries(),
    {
        if delivered {
            return (sent + 1, true);
        }
        let ghost original = msg@;
        let mut msg = msg;
        msg.attempts = msg.attempts + 1;
        if msg.attempts >= self.max_retries {
            // Drop the message after max retries
            return (sent, true);
        }
        let ghost before = self@;
        self.queue.push_front(msg);
        assert(self@ =~= seq![with_failed_attempt(original)] + before);
        (sent, false)
    }
}

/// The highest power of two that the wait for a reconnection reaches while
/// flushing with retries.
pub const FLUSH_BACKOFF_CAP: u32 = 5;

/// What a flush with retries does next.
#[derive(Debug, Clone, Copy, PartialEq, Eq, Structural)]
pub enum RetryAction {
    /// Wait this many seconds for the client to reconnect, then ask again.
    Wait(u64),
    /// Flush the queue through the client, then report the outcome.
    Flush,
    /// Stop, having sent this many messages in all.
    Finish(usize),
}

/// The decisions of a flush with retry and backoff: the caller asks what to
/// do next, performs it, and reports back.
pub struct FlushRetry {
    attempt: u32,
    max_attempts: u32,
    total_sent: usize,
    finished: bool,
}

/// A flush with retries as a mathematical value.
pub struct FlushRetryView {
    pub attempt: u32,
    pub max_attempts: u32,
    pub total_sent: usize,
    /// Whether a flush emptied the queue.
    pub finished: bool,
}

impl View for FlushRetry {
    type V = FlushRetryView;

    closed spec fn view(&self) -> FlushRetryView {
        FlushRetryView {
            attempt: self.attempt,
            max_attempts: self.max_attempts,
            total_sent: self.total_sent,
            finished: self.finished,
        }
    }
}

impl FlushRetry {
    /// Start a flush that makes at most `max_attempts` failed attempts.
    pub fn new(max_attempts: u32) -> (f: Self)
        ensures
            f@ == (FlushRetryView { attempt: 0, max_attempts, total_sent: 0, finished: false }),
    {
        FlushRetry { attempt: 0, max_attempts, total_sent: 0, finished: false }
    }

    /// What to do next, given whether the queue is empty and whether the
    /// client is connected: stop once the queue is empty, a flush emptied it
    /// or the attempts are used up; wait `2^min(attempt, 5)` seconds (and
    /// count an attempt) while disconnected; flush otherwise.
    pub fn next(&mut self, queue_empty: bool, connected: bool) -> (a: RetryAction)
        ensures
            old(self)@.finished || queue_empty || old(self)@.attempt >= old(self)@.max_attempts ==> (
            a == RetryAction::Finish(old(self)@.total_sent) && final(self)@ == old(self)@),
            !(old(self)@.finished || queue_empty || old(self)@.attempt >= old(self)@.max_attempts)
                && !connected ==> (a == RetryAction::Wait(
                backoff(old(self)@.attempt as nat, FLUSH_BACKOFF_CAP as nat) as u64,
            ) && final(self)@ == (FlushRetryView {
                attempt: (old(self)@.attempt + 1) as u32,
                ..old(self)@
            })),
            !(old(self)@.finished || queue_empty || old(self)@.attempt >= old(self)@.max_attempts)
                && connected ==> (a == RetryAction::Flush && final(self)@ == old(self)@),
    {
        if self.finished || queue_empty || self.attempt >= self.max_attempts {
            return RetryAction::Finish(self.total_sent);
        }
        if !connected {
            let delay = backoff_secs(self.attempt, FLUSH_BACKOFF_CAP);
            self.attempt = self.attempt + 1;
            return RetryAction::Wait(delay);
        }
        RetryAction::Flush
    }

    /// The number of messages sent so far.
    pub fn total_sent(&self) -> (n: usize)
        ensures
            n == self@.total_sent,
    {
        self.total_sent
    }

    /// Whether an attempt is left (so that a flush may be reported).
    pub fn attempts_left(&self) -> (b: bool)
        ensures
            b == (self@.attempt < self@.max_attempts),
    {
        self.attempt < self.max_attempts
    }

    /// Report a flush: `Some(sent)` if it went through (and whether the
    /// queue is now empty), `None` if it failed, which counts an attempt.
    pub fn flushed(&mut self, outcome: Option<usize>, now_empty: bool)
        requires
            old(self)@.attempt < old(self)@.max_attempts,
            outcome matches Some(sent) ==> old(self)@.total_sent + sent <= usize::MAX,
        ensures
            outcome matches Some(sent) ==> final(self)@ == (FlushRetryView {
                total_sent: (old(self)@.total_sent + sent) as usize,
                finished: old(self)@.finished || now_empty,
                ..old(self)@
            }),
            outcome is None ==> final(self)@ == (FlushRetryView {
                attempt: (old(self)@.attempt + 1) as u32,
                ..old(self)@
            }),
    {
        match outcome {
            Some(sent) => {
                self.total_sent = self.total_sent + sent;
                if now_empty {
                    self.finished = true;
                }
            },
            None => {
                self.attempt = self.attempt + 1;
            },
        }
    }
}

/// A flush round leaves every other message where it was: the queue after it
/// is the old queue without its front, or the old queue with the front's
/// attempt count raised; so a flush that goes on has one message fewer.
pub proof fn law_flush_round_keeps_rest(
    q: Seq<QueuedMessageView>,
    delivered: bool,
    max_retries: u32,
)
    requires
        q.len() > 0,
    ensures
        ({
            let (after, goes_on) = flush_outcome(q.drop_first(), q[0], delivered, max_retries);
            &&& goes_on ==> after == q.drop_first()
            &&& !goes_on ==> after == q.update(0, with_failed_attempt(q[0]))
            &&& after.len() <= q.len()
        }),
{
    let (after, goes_on) = flush_outcome(q.drop_first(), q[0], delivered, max_retries);
    if !goes_on {
        assert(after =~= q.update(0, with_failed_attempt(q[0])));
    }
}

/// What a flush does over several rounds, given the outcome of each send in
/// turn: the queue after it and the number of messages sent. It stops once
/// the queue is empty, a failed message is put back, or the outcomes run out.
pub open spec fn flush_rounds(
    q: Seq<QueuedMessageView>,
    outcomes: Seq<bool>,
    max_retries: u32,
) -> (Seq<QueuedMessageView>, nat)
    decreases outcomes.len(),
{
    if q.len() == 0 || outcomes.len() == 0 {
        (q, 0)
    } else {
        let (after, goes_on) = flush_outcome(q.drop_first(), q[0], outcomes[0], max_retries);
        let sent: nat = if outcomes[0] { 1 } else { 0 };
        if goes_on {
            let (rest, n) = flush_rounds(after, outcomes.drop_first(), max_retries);
            (rest, n + sent)
        } else {
            (after, sent)
        }
    }
}

/// A flush in which every send succeeds empties the queue and sends every
/// message; in any flush, no more messages are sent than were queued, and
/// the queue does not grow.
pub proof fn law_flush_all_delivered(
    q: Seq<QueuedMessageView>,
    outcomes: Seq<bool>,
    max_retries: u32,
)
    ensures
        flush_rounds(q, outcomes, max_retries).1 <= q.len(),
        flush_rounds(q, outcomes, max_retries).0.len() <= q.len(),
        (forall|i: int| 0 <= i < outcomes.len() ==> #[trigger] outcomes[i]) && outcomes.len()
            >= q.len() ==> flush_rounds(q, outcomes, max_retries) == (
            Seq::<QueuedMessageView>::empty(),
            q.len(),
        ),
    decreases outcomes.len(),
{
    if q.len() > 0 && outcomes.len() > 0 {
        let (after, goes_on) = flush_outcome(q.drop_first(), q[0], outcomes[0], max_retries);
        law_flush_all_delivered(after, outcomes.drop_first(), max_retries);
        if (forall|i: int| 0 <= i < outcomes.len() ==> #[trigger] outcomes[i]) && outcomes.len()
            >= q.len() {
            assert(outcomes[0]);
            assert forall|i: int| 0 <= i < outcomes.drop_first().len() implies #[trigger] outcomes.drop_first()[i] by {
                assert(outcomes[i + 1]);
            }
        }
    } else if q.len() == 0 {
        assert(q =~= Seq::<QueuedMessageView>::empty());
    }
}

/// The message a queue error is shown with.
pub open spec fn queue_error_text(e: QueueError) -> Seq<char> {
    match e {
        QueueError::Io(m) => "IO error: "@ + m@,
        QueueError::Serialization(m) => "Serialization error: "@ + m@,
        QueueError::Send(r) => "Send failed: "@ + relay_error_text(r),
        QueueError::MaxRetries => "Max retries exceeded"@,
    }
}

impl QueueError {
    /// The message this error is shown with.
    pub fn text(&self) -> (t: String)
        ensures
            t@ == queue_error_text(*self),
    {
        match self {
            QueueError::Io(m) => joined("IO error: ", m.as_str()),
            QueueError::Serialization(m) => joined("Serialization error: ", m.as_str()),
            QueueError::Send(r) => joined("Send failed: ", r.text().as_str()),
            QueueError::MaxRetries => String::from_str("Max retries exceeded"),
        }
    }
}

/// What a flush round does with the front message, stated field by field: a
/// delivered message leaves the queue; a message that fails is put back at
/// the front, with its recipient, payload and time unchanged and one more
/// attempt, and the flush stops, as long as that count stays below
/// `max_retries`; once the count reaches `max_retries` it is dropped and the
/// flush goes on.
pub proof fn law_failed_message_kept_until_max_retries(
    rest: Seq<QueuedMessageView>,
    m: QueuedMessageView,
    max_retries: u32,
)
    requires
        m.attempts < u32::MAX,
    ensures
        flush_outcome(rest, m, true, max_retries) == (rest, true),
        m.attempts + 1 < max_retries ==> flush_outcome(rest, m, false, max_retries) == (
            seq![
                QueuedMessageView {
                    recipient: m.recipient,
                    payload: m.payload,
                    queued_at: m.queued_at,
                    attempts: (m.attempts + 1) as u32,
                },
            ] + rest,
            false,
        ),
        m.attempts + 1 >= max_retries ==> flush_outcome(rest, m, false, max_retries) == (rest, true),
{
}

/// The backoff delay starts at one second and doubles with each attempt up to
/// the cap, then stays.
pub proof fn law_backoff_doubles(a: nat, cap: nat)
    ensures
        backoff(0, cap) == 1,
        a < cap ==> backoff(a + 1, cap) == 2 * backoff(a, cap),
        a >= cap ==> backoff(a + 1, cap) == backoff(a, cap),
{
    lemma_pow2_unfold((a + 1) as nat);
    vstd::arithmetic::power2::lemma2_to64();
}

} // verus!
