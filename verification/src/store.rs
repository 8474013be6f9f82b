//! The queue engine core: one named queue of priority-ordered pending
//! messages with a durable, append-only operation log, an optional audit
//! journal, an optional dead-letter buffer and an optional credential.
//!
//! The capability set of a store is fixed at construction. The central
//! invariant is durability: replaying the operation log from an empty
//! state reproduces exactly the pending messages (and, for a journaled
//! queue, the journal), so a queue recovered from its log alone holds
//! precisely the messages that were sent but not yet received.

use vstd::prelude::*;
use std::collections::VecDeque;
use crate::error::MSMQError;
use crate::message::Message;
use crate::message::Priority;
use crate::security::Security;

verus! {

/// Whether a journal entry records a delivery into or out of the queue.
#[derive(Debug)]
pub enum Direction {
    Sent,
    Received,
}

/// One audit record: the direction and a value-copy of the content,
/// independent of the live message.
#[derive(Debug)]
pub struct JournalEntry {
    pub direction: Direction,
    pub content: String,
}

/// The mathematical shape of a journal entry: direction and content.
pub struct JournalEntryModel {
    pub direction: Direction,
    pub content: Seq<char>,
}

/// One record of the durable operation log: either a full copy of a sent
/// message or the fact that the next deliverable message was taken.
#[derive(Debug)]
pub enum LogRecord {
    Sent(Message),
    Received,
}

impl Clone for LogRecord {
    /// A cloned record equals the original, so replaying a copied log
    /// reproduces the same state.
    fn clone(&self) -> (r: Self)
        ensures
            r == *self,
    {
        match self {
            LogRecord::Sent(m) => LogRecord::Sent(m.clone()),
            LogRecord::Received => LogRecord::Received,
        }
    }
}

/// The mathematical state of a queue store: every contract of the engine
/// speaks in terms of this model.
#[verifier::ext_equal]
pub struct StoreModel {
    /// The queue name.
    pub name: Seq<char>,
    /// Pending high-priority messages, earliest arrival first.
    pub highs: Seq<Message>,
    /// Pending low-priority messages, earliest arrival first.
    pub lows: Seq<Message>,
    /// The audit journal (empty unless journaling is on).
    pub journal: Seq<JournalEntryModel>,
    /// The durable log of applied operations.
    pub log: Seq<LogRecord>,
    /// Whether sends and receives are journaled.
    pub journal_on: bool,
    /// Whether the queue accepts transactional application.
    pub transactional: bool,
    /// The credential bound to the queue, if authenticated delivery was
    /// configured.
    pub credential: Option<Security>,
    /// Messages evicted into the dead-letter buffer.
    pub dlq: Seq<Message>,
    /// Whether the queue was built with a dead-letter target.
    pub dlq_on: bool,
}

/// The pending/journal state that replaying a log reproduces.
#[verifier::ext_equal]
pub struct ReplayModel {
    pub highs: Seq<Message>,
    pub lows: Seq<Message>,
    pub journal: Seq<JournalEntryModel>,
}

/// The journal entry recorded when `m` is sent.
pub open spec fn sent_entry(m: Message) -> JournalEntryModel {
    JournalEntryModel { direction: Direction::Sent, content: m.spec_content() }
}

/// The journal entry recorded when `m` is received.
pub open spec fn received_entry(m: Message) -> JournalEntryModel {
    JournalEntryModel { direction: Direction::Received, content: m.spec_content() }
}

/// The effect of one log record on a replayed state. The journal is
/// accumulated unconditionally here; a store without journaling keeps
/// its own journal empty instead.
pub open spec fn replay_step(r: ReplayModel, rec: LogRecord) -> ReplayModel {
    match rec {
        LogRecord::Sent(m) => ReplayModel {
            highs: if m.spec_priority() is High { r.highs.push(m) } else { r.highs },
            lows: if m.spec_priority() is High { r.lows } else { r.lows.push(m) },
            journal: r.journal.push(sent_entry(m)),
        },
        LogRecord::Received => {
            if r.highs.len() > 0 {
                ReplayModel {
                    highs: r.highs.drop_first(),
                    lows: r.lows,
                    journal: r.journal.push(received_entry(r.highs.first())),
                }
            } else if r.lows.len() > 0 {
                ReplayModel {
                    highs: r.highs,
                    lows: r.lows.drop_first(),
                    journal: r.journal.push(received_entry(r.lows.first())),
                }
            } else {
                r
            }
        },
    }
}

/// Replays a whole log from the empty state.
pub open spec fn replay(log: Seq<LogRecord>) -> ReplayModel
    decreases log.len(),
{
    if log.len() == 0 {
        ReplayModel {
            highs: Seq::<Message>::empty(),
            lows: Seq::<Message>::empty(),
            journal: Seq::<JournalEntryModel>::empty(),
        }
    } else {
        replay_step(replay(log.drop_last()), log.last())
    }
}

/// Appending one record to a log extends its replay by one step.
pub proof fn lemma_replay_push(log: Seq<LogRecord>, rec: LogRecord)
    ensures
        replay(log.push(rec)) == replay_step(replay(log), rec),
{
    assert(log.push(rec).drop_last() =~= log);
    assert(log.push(rec).last() == rec);
}

/// Whether the given pair is exactly the credential of the store.
pub open spec fn credential_matches(m: StoreModel, username: Seq<char>, password: Seq<char>) -> bool {
    match m.credential {
        Some(sec) => sec.spec_username() == username && sec.spec_password() == password,
        None => false,
    }
}

impl StoreModel {
    /// The delivery view: every pending message in the order `receive`
    /// would return it — all high-priority messages (earliest first),
    /// then all low-priority ones.
    pub open spec fn dv(self) -> Seq<Message> {
        self.highs + self.lows
    }

    /// Well-formedness: priorities are segregated into the right buckets,
    /// and the durable log replays to exactly the pending messages and
    /// (for a journaled store) the journal.
    pub open spec fn inv(self) -> bool {
        &&& forall|i: int|
            0 <= i < self.highs.len() ==> (#[trigger] self.highs[i]).spec_priority() is High
        &&& forall|i: int|
            0 <= i < self.lows.len() ==> (#[trigger] self.lows[i]).spec_priority() is Low
        &&& self.highs == replay(self.log).highs
        &&& self.lows == replay(self.log).lows
        &&& self.journal == (if self.journal_on {
            replay(self.log).journal
        } else {
            Seq::<JournalEntryModel>::empty()
        })
    }
}

/// The state after sending `msg`: it joins its priority bucket at the
/// back, the log records a copy, and a journaled store adds a `Sent`
/// audit entry.
pub open spec fn spec_send(m: StoreModel, msg: Message) -> StoreModel {
    StoreModel {
        highs: if msg.spec_priority() is High { m.highs.push(msg) } else { m.highs },
        lows: if msg.spec_priority() is High { m.lows } else { m.lows.push(msg) },
        journal: if m.journal_on { m.journal.push(sent_entry(msg)) } else { m.journal },
        log: m.log.push(LogRecord::Sent(msg)),
        ..m
    }
}

/// The state and result of receiving: the earliest high-priority message
/// if one is pending, else the earliest low-priority one, else nothing.
/// An empty queue is left untouched and nothing is logged or journaled.
pub open spec fn spec_receive(m: StoreModel) -> (StoreModel, Option<Message>) {
    if m.highs.len() > 0 {
        let msg = m.highs.first();
        (
            StoreModel {
                highs: m.highs.drop_first(),
                journal: if m.journal_on { m.journal.push(received_entry(msg)) } else { m.journal },
                log: m.log.push(LogRecord::Received),
                ..m
            },
            Some(msg),
        )
    } else if m.lows.len() > 0 {
        let msg = m.lows.first();
        (
            StoreModel {
                lows: m.lows.drop_first(),
                journal: if m.journal_on { m.journal.push(received_entry(msg)) } else { m.journal },
                log: m.log.push(LogRecord::Received),
                ..m
            },
            Some(msg),
        )
    } else {
        (m, None)
    }
}

/// The state after moving the next deliverable message into the
/// dead-letter buffer; an empty queue is left untouched.
pub open spec fn spec_move_to_dlq(m: StoreModel) -> StoreModel {
    let (m2, r) = spec_receive(m);
    match r {
        Some(msg) => StoreModel { dlq: m2.dlq.push(msg), ..m2 },
        None => m2,
    }
}

/// Sending preserves the store invariant.
pub proof fn lemma_spec_send_preserves_inv(m: StoreModel, msg: Message)
    requires
        m.inv(),
    ensures
        spec_send(m, msg).inv(),
{
    lemma_replay_push(m.log, LogRecord::Sent(msg));
}

/// Receiving preserves the store invariant.
pub proof fn lemma_spec_receive_preserves_inv(m: StoreModel)
    requires
        m.inv(),
    ensures
        spec_receive(m).0.inv(),
{
    if m.highs.len() > 0 || m.lows.len() > 0 {
        lemma_replay_push(m.log, LogRecord::Received);
    }
}

/// Maps exec journal entries to their models.
pub open spec fn entry_model(e: JournalEntry) -> JournalEntryModel {
    JournalEntryModel { direction: e.direction, content: e.content@ }
}

/// The model of a whole exec journal.
pub open spec fn journal_model(s: Seq<JournalEntry>) -> Seq<JournalEntryModel> {
    s.map(|i: int, e: JournalEntry| entry_model(e))
}

/// Pushing an exec journal entry pushes its model.
pub proof fn lemma_journal_model_push(s: Seq<JournalEntry>, e: JournalEntry)
    ensures
        journal_model(s.push(e)) == journal_model(s).push(entry_model(e)),
{
    assert(journal_model(s.push(e)) =~= journal_model(s).push(entry_model(e)));
}

/// One named queue: pending messages split by priority, the durable log,
/// and the capability state fixed at construction.
#[derive(Debug)]
pub struct QueueStore {
    name: String,
    highs: VecDeque<Message>,
    lows: VecDeque<Message>,
    journal: Vec<JournalEntry>,
    log: Vec<LogRecord>,
    journal_on: bool,
    transactional: bool,
    credential: Option<Security>,
    dlq: VecDeque<Message>,
    dlq_on: bool,
}

impl View for QueueStore {
    type V = StoreModel;

    closed spec fn view(&self) -> StoreModel {
        StoreModel {
            name: self.name@,
            highs: self.highs@,
            lows: self.lows@,
            journal: journal_model(self.journal@),
            log: self.log@,
            journal_on: self.journal_on,
            transactional: self.transactional,
            credential: self.credential,
            dlq: self.dlq@,
            dlq_on: self.dlq_on,
        }
    }
}

impl QueueStore {
    /// Creates an empty store with the given name and capability set.
    pub fn new(
        name: String,
        journal_on: bool,
        transactional: bool,
        credential: Option<Security>,
        dlq_on: bool,
    ) -> (q: QueueStore)
        ensures
            q@.name == name@,
            q@.highs == Seq::<Message>::empty(),
            q@.lows == Seq::<Message>::empty(),
            q@.journal == Seq::<JournalEntryModel>::empty(),
            q@.log == Seq::<LogRecord>::empty(),
            q@.journal_on == journal_on,
            q@.transactional == transactional,
            q@.credential == credential,
            q@.dlq == Seq::<Message>::empty(),
            q@.dlq_on == dlq_on,
            q@.inv(),
    {
        let q = QueueStore {
            name,
            highs: VecDeque::new(),
            lows: VecDeque::new(),
            journal: Vec::new(),
            log: Vec::new(),
            journal_on,
            transactional,
            credential,
            dlq: VecDeque::new(),
            dlq_on,
        };
        proof {
            assert(journal_model(q.journal@) =~= Seq::<JournalEntryModel>::empty());
        }
        q
    }

    /// The queue's name.
    pub fn name(&self) -> (n: &String)
        ensures
            n@ == self@.name,
    {
        &self.name
    }

    /// Whether the queue accepts transactional application.
    pub fn is_transactional(&self) -> (b: bool)
        ensures
            b == self@.transactional,
    {
        self.transactional
    }

    /// Appends a message to its priority bucket; a copy goes to the
    /// durable log, and a journaled queue records a `Sent` audit entry.
    /// Sending is never refused on logical grounds.
    pub fn send(&mut self, message: Message) -> (r: Result<(), MSMQError>)
        requires
            old(self)@.inv(),
        ensures
            final(self)@ == spec_send(old(self)@, message),
            final(self)@.inv(),
            r is Ok,
    {
        proof {
            lemma_spec_send_preserves_inv(self@, message);
        }
        let logged = message.clone();
        self.log.push(LogRecord::Sent(logged));
        if self.journal_on {
            let copy = message.content_copy();
            let e = JournalEntry { direction: Direction::Sent, content: copy };
            proof {
                lemma_journal_model_push(self.journal@, e);
            }
            self.journal.push(e);
        }
        match message.priority() {
            Priority::High => self.highs.push_back(message),
            Priority::Low => self.lows.push_back(message),
        }
        proof {
            assert(self@ =~= spec_send(old(self)@, message));
        }
        Ok(())
    }

    /// Removes and returns the highest-priority, earliest-arrived pending
    /// message; an empty queue yields nothing and is left untouched. The
    /// removal is logged, and a journaled queue records a `Received`
    /// audit entry for the message's content.
    pub fn receive(&mut self) -> (r: Option<Message>)
        requires
            old(self)@.inv(),
        ensures
            final(self)@ == spec_receive(old(self)@).0,
            r == spec_receive(old(self)@).1,
            final(self)@.inv(),
    {
        proof {
            lemma_spec_receive_preserves_inv(self@);
        }
        let popped = match self.highs.pop_front() {
            Some(m) => Some(m),
            None => self.lows.pop_front(),
        };
        match popped {
            None => None,
            Some(m) => {
                self.log.push(LogRecord::Received);
                if self.journal_on {
                    let copy = m.content_copy();
                    let e = JournalEntry { direction: Direction::Received, content: copy };
                    proof {
                        lemma_journal_model_push(self.journal@, e);
                    }
                    self.journal.push(e);
                }
                proof {
                    assert(self@ =~= spec_receive(old(self)@).0);
                }
                Some(m)
            },
        }
    }

    /// The number of pending messages. The count reflects every completed
    /// send and receive; it is only unavailable if it cannot be
    /// represented in a machine word.
    pub fn message_count(&self) -> (r: Result<usize, MSMQError>)
        ensures
            match r {
                Ok(n) => n == self@.dv().len(),
                Err(_) => self@.dv().len() > usize::MAX,
            },
            self@.dv().len() <= usize::MAX ==> r is Ok,
    {
        let h = self.highs.len();
        let l = self.lows.len();
        match h.checked_add(l) {
            Some(n) => Ok(n),
            None => Err(MSMQError::Custom("Pending message count exceeds the machine's addressable range".to_owned())),
        }
    }

    /// Moves the next deliverable message (same order as `receive`) into
    /// the dead-letter buffer; succeeds without effect on an empty queue.
    pub fn move_to_dlq(&mut self) -> (r: Result<(), MSMQError>)
        requires
            old(self)@.inv(),
        ensures
            final(self)@ == spec_move_to_dlq(old(self)@),
            final(self)@.inv(),
            r is Ok,
    {
        match self.receive() {
            Some(m) => {
                self.dlq.push_back(m);
                proof {
                    assert(self@ =~= spec_move_to_dlq(old(self)@));
                }
            },
            None => {},
        }
        Ok(())
    }

    /// The number of messages in the dead-letter buffer.
    pub fn dlq_count(&self) -> (n: usize)
        ensures
            n == self@.dlq.len(),
    {
        self.dlq.len()
    }

    /// The number of audit entries recorded so far.
    pub fn journal_length(&self) -> (n: usize)
        ensures
            n == self@.journal.len(),
    {
        self.journal.len()
    }

    /// Accepts a sealed message for a queue configured with a credential;
    /// queue semantics are exactly those of `send`.
    pub fn send_authenticated(&mut self, message: Message) -> (r: Result<(), MSMQError>)
        requires
            old(self)@.inv(),
            message.spec_security() is Encrypted,
        ensures
            final(self)@ == spec_send(old(self)@, message),
            final(self)@.inv(),
            r is Ok,
    {
        self.send(message)
    }

    /// Receives only if the presented pair matches the queue's configured
    /// credential exactly; on a mismatch (or on a queue with no credential)
    /// nothing is returned and the queue is left untouched.
    pub fn receive_authenticated(&mut self, username: &str, password: &str) -> (r: Option<Message>)
        requires
            old(self)@.inv(),
        ensures
            final(self)@.inv(),
            credential_matches(old(self)@, username@, password@) ==> {
                &&& final(self)@ == spec_receive(old(self)@).0
                &&& r == spec_receive(old(self)@).1
            },
            !credential_matches(old(self)@, username@, password@) ==> {
                &&& final(self)@ == old(self)@
                &&& r is None
            },
    {
        let ok = match &self.credential {
            None => false,
            Some(sec) => sec.check(username, password),
        };
        if ok {
            self.receive()
        } else {
            None
        }
    }

    /// Rebuilds this queue from its durable log alone, as recovery after
    /// a restart does: the result holds exactly the pending messages (and
    /// journal) of the original, with a fresh dead-letter buffer.
    pub fn recovered(&self) -> (q: QueueStore)
        requires
            self@.inv(),
        ensures
            q@.inv(),
            q@.name == self@.name,
            q@.highs == self@.highs,
            q@.lows == self@.lows,
            q@.journal == self@.journal,
            q@.journal_on == self@.journal_on,
            q@.transactional == self@.transactional,
            q@.credential == self@.credential,
            q@.dlq_on == self@.dlq_on,
            q@.dlq == Seq::<Message>::empty(),
    {
        let cred = match &self.credential {
            None => None,
            Some(sec) => Some(sec.clone()),
        };
        let mut q = QueueStore::new(
            self.name.clone(),
            self.journal_on,
            self.transactional,
            cred,
            self.dlq_on,
        );
        let n = self.log.len();
        let mut i: usize = 0;
        proof {
            assert(self@.log.take(0) =~= Seq::<LogRecord>::empty());
        }
        while i < n
            invariant
                i <= n,
                n == self@.log.len(),
                self@.inv(),
                q@.inv(),
                q@.name == self@.name,
                q@.journal_on == self@.journal_on,
                q@.transactional == self@.transactional,
                q@.credential == self@.credential,
                q@.dlq_on == self@.dlq_on,
                q@.dlq == Seq::<Message>::empty(),
                q@.highs == replay(self@.log.take(i as int)).highs,
                q@.lows == replay(self@.log.take(i as int)).lows,
                q@.journal == (if self@.journal_on {
                    replay(self@.log.take(i as int)).journal
                } else {
                    Seq::<JournalEntryModel>::empty()
                }),
            decreases n - i,
        {
            proof {
                assert(self@.log.take(i + 1).drop_last() =~= self@.log.take(i as int));
                assert(self@.log.take(i + 1).last() == self@.log[i as int]);
            }
            match &self.log[i] {
                LogRecord::Sent(m) => {
                    let _ = q.send(m.clone());
                },
                LogRecord::Received => {
                    let _ = q.receive();
                },
            }
            i = i + 1;
        }
        proof {
            assert(self@.log.take(n as int) =~= self@.log);
        }
        q
    }
}

} // verus!
