//! The queue registry: the engine-wide lookup from queue name to queue
//! store. Transaction commit and multicast delivery reach queues through
//! it, and recovery rebuilds a queue from the durable log it holds. The
//! registry is an explicitly passed value owned by whoever constructs
//! the engine; names are unique and entries are never removed.

use vstd::prelude::*;
use vstd::pervasive::unreached;
use crate::error::MSMQError;
use crate::message::Message;
use crate::store::QueueStore;
use crate::store::StoreModel;
use crate::store::lemma_spec_send_preserves_inv;
use crate::store::spec_send;

verus! {

/// The index of the store with the given name, if one is registered.
pub open spec fn find_store(reg: Seq<StoreModel>, name: Seq<char>) -> Option<int>
    decreases reg.len(),
{
    if reg.len() == 0 {
        None
    } else if reg[0].name == name {
        Some(0)
    } else {
        match find_store(reg.drop_first(), name) {
            Some(i) => Some(i + 1),
            None => None,
        }
    }
}

/// What `find_store` returns is an index of a store with that name, and
/// `None` only when no store has it.
pub proof fn lemma_find_store_bounds(reg: Seq<StoreModel>, name: Seq<char>)
    ensures
        match find_store(reg, name) {
            Some(i) => 0 <= i < reg.len() && reg[i].name == name,
            None => forall|k: int| 0 <= k < reg.len() ==> (#[trigger] reg[k]).name != name,
        },
    decreases reg.len(),
{
    if reg.len() > 0 && reg[0].name != name {
        lemma_find_store_bounds(reg.drop_first(), name);
        match find_store(reg.drop_first(), name) {
            Some(i) => {
                assert(reg.drop_first()[i] == reg[i + 1]);
            },
            None => {
                assert forall|k: int| 0 <= k < reg.len() implies (#[trigger] reg[k]).name
                    != name by {
                    if k > 0 {
                        assert(reg.drop_first()[k - 1] == reg[k]);
                    }
                }
            },
        }
    }
}

/// A scan that saw different names up to `j` and the name at `j` finds
/// exactly `j`.
pub proof fn lemma_find_store_at(reg: Seq<StoreModel>, name: Seq<char>, j: int)
    requires
        0 <= j < reg.len(),
        forall|k: int| 0 <= k < j ==> (#[trigger] reg[k]).name != name,
        reg[j].name == name,
    ensures
        find_store(reg, name) == Some(j),
    decreases reg.len(),
{
    if j > 0 {
        lemma_find_store_at(reg.drop_first(), name, j - 1);
    }
}

/// Two registries with the same names agree on every lookup.
pub proof fn lemma_find_store_same_names(reg1: Seq<StoreModel>, reg2: Seq<StoreModel>, name: Seq<char>)
    requires
        reg1.len() == reg2.len(),
        forall|k: int| 0 <= k < reg1.len() ==> (#[trigger] reg1[k]).name == reg2[k].name,
    ensures
        find_store(reg1, name) == find_store(reg2, name),
    decreases reg1.len(),
{
    if reg1.len() > 0 {
        assert(forall|k: int|
            0 <= k < reg1.drop_first().len() ==> (#[trigger] reg1.drop_first()[k]).name
                == reg2.drop_first()[k].name);
        lemma_find_store_same_names(reg1.drop_first(), reg2.drop_first(), name);
    }
}

/// In a registry with unique names, a queue is found under its own name
/// at its own place.
pub proof fn lemma_find_store_self(reg: Seq<StoreModel>, j: int)
    requires
        reg_wf(reg),
        0 <= j < reg.len(),
    ensures
        find_store(reg, reg[j].name) == Some(j),
{
    lemma_find_store_at(reg, reg[j].name, j);
}

/// Whether one buffered send has a usable target: its queue exists and,
/// where demanded, accepts transactional application.
pub open spec fn target_ok(reg: Seq<StoreModel>, op: (String, Message), need_transactional: bool) -> bool {
    match find_store(reg, op.0@) {
        Some(i) => !need_transactional || reg[i].transactional,
        None => false,
    }
}

/// The first buffered send without a usable target, if any.
pub open spec fn first_bad_target(
    reg: Seq<StoreModel>,
    ops: Seq<(String, Message)>,
    need_transactional: bool,
) -> Option<int>
    decreases ops.len(),
{
    if ops.len() == 0 {
        None
    } else if !target_ok(reg, ops.first(), need_transactional) {
        Some(0)
    } else {
        match first_bad_target(reg, ops.drop_first(), need_transactional) {
            Some(j) => Some(j + 1),
            None => None,
        }
    }
}

/// A scan that saw usable targets up to `j` and an unusable one at `j`
/// reports exactly `j`.
pub proof fn lemma_first_bad_target_at(
    reg: Seq<StoreModel>,
    ops: Seq<(String, Message)>,
    need_transactional: bool,
    j: int,
)
    requires
        0 <= j < ops.len(),
        forall|k: int| 0 <= k < j ==> target_ok(reg, #[trigger] ops[k], need_transactional),
        !target_ok(reg, ops[j], need_transactional),
    ensures
        first_bad_target(reg, ops, need_transactional) == Some(j),
    decreases ops.len(),
{
    if j > 0 {
        assert(forall|k: int|
            0 <= k < j - 1 ==> target_ok(reg, #[trigger] ops.drop_first()[k], need_transactional));
        lemma_first_bad_target_at(reg, ops.drop_first(), need_transactional, j - 1);
    }
}

/// What `first_bad_target` reports is indeed an unusable target.
pub proof fn lemma_first_bad_target_is_bad(
    reg: Seq<StoreModel>,
    ops: Seq<(String, Message)>,
    need_transactional: bool,
)
    ensures
        match first_bad_target(reg, ops, need_transactional) {
            Some(bad) => 0 <= bad < ops.len() && !target_ok(reg, ops[bad], need_transactional),
            None => true,
        },
    decreases ops.len(),
{
    if ops.len() > 0 && target_ok(reg, ops.first(), need_transactional) {
        lemma_first_bad_target_is_bad(reg, ops.drop_first(), need_transactional);
    }
}

/// A scan that saw only usable targets reports none.
pub proof fn lemma_first_bad_target_none(
    reg: Seq<StoreModel>,
    ops: Seq<(String, Message)>,
    need_transactional: bool,
)
    requires
        forall|k: int| 0 <= k < ops.len() ==> target_ok(reg, #[trigger] ops[k], need_transactional),
    ensures
        first_bad_target(reg, ops, need_transactional) is None,
    decreases ops.len(),
{
    if ops.len() > 0 {
        assert(forall|k: int|
            0 <= k < ops.drop_first().len() ==> target_ok(
                reg,
                #[trigger] ops.drop_first()[k],
                need_transactional,
            ));
        lemma_first_bad_target_none(reg, ops.drop_first(), need_transactional);
    }
}

/// The registry after one buffered send is applied to its target queue;
/// a send whose target is missing changes nothing.
pub open spec fn spec_apply_one(reg: Seq<StoreModel>, op: (String, Message)) -> Seq<StoreModel> {
    match find_store(reg, op.0@) {
        Some(i) => reg.update(i, spec_send(reg[i], op.1)),
        None => reg,
    }
}

/// The registry after a buffer of sends is applied in order.
pub open spec fn spec_apply_sends(reg: Seq<StoreModel>, ops: Seq<(String, Message)>) -> Seq<StoreModel>
    decreases ops.len(),
{
    if ops.len() == 0 {
        reg
    } else {
        spec_apply_sends(spec_apply_one(reg, ops.first()), ops.drop_first())
    }
}

/// Applying one more buffered send extends the fold by one step.
pub proof fn lemma_spec_apply_sends_snoc(
    reg: Seq<StoreModel>,
    ops: Seq<(String, Message)>,
    op: (String, Message),
)
    ensures
        spec_apply_sends(reg, ops.push(op)) == spec_apply_one(spec_apply_sends(reg, ops), op),
    decreases ops.len(),
{
    let snoc = ops.push(op);
    if ops.len() == 0 {
        assert(snoc.first() == op);
        assert(snoc.drop_first() =~= Seq::<(String, Message)>::empty());
        assert(spec_apply_sends(reg, snoc) == spec_apply_sends(
            spec_apply_one(reg, op),
            snoc.drop_first(),
        ));
        assert(spec_apply_sends(spec_apply_one(reg, op), snoc.drop_first()) == spec_apply_one(
            reg,
            op,
        ));
        assert(spec_apply_sends(reg, ops) == reg);
    } else {
        assert(snoc.first() == ops.first());
        assert(snoc.drop_first() =~= ops.drop_first().push(op));
        assert(spec_apply_sends(reg, snoc) == spec_apply_sends(
            spec_apply_one(reg, ops.first()),
            ops.drop_first().push(op),
        ));
        lemma_spec_apply_sends_snoc(spec_apply_one(reg, ops.first()), ops.drop_first(), op);
        assert(spec_apply_sends(reg, ops) == spec_apply_sends(
            spec_apply_one(reg, ops.first()),
            ops.drop_first(),
        ));
    }
}

/// Well-formedness of a registry: names are unique and every store
/// satisfies its own invariant.
pub open spec fn reg_wf(reg: Seq<StoreModel>) -> bool {
    &&& forall|i: int, j: int|
        0 <= i < j < reg.len() ==> (#[trigger] reg[i]).name != (#[trigger] reg[j]).name
    &&& forall|i: int| 0 <= i < reg.len() ==> (#[trigger] reg[i]).inv()
}

/// The models of a sequence of stores.
pub open spec fn store_models(qs: Seq<QueueStore>) -> Seq<StoreModel> {
    qs.map(|i: int, q: QueueStore| q@)
}

/// Pushing a store pushes its model.
pub proof fn lemma_store_models_push(qs: Seq<QueueStore>, q: QueueStore)
    ensures
        store_models(qs.push(q)) == store_models(qs).push(q@),
{
    assert(store_models(qs.push(q)) =~= store_models(qs).push(q@));
}

/// Updating a store updates its model.
pub proof fn lemma_store_models_update(qs: Seq<QueueStore>, i: int, q: QueueStore)
    requires
        0 <= i < qs.len(),
    ensures
        store_models(qs.update(i, q)) == store_models(qs).update(i, q@),
{
    assert(store_models(qs.update(i, q)) =~= store_models(qs).update(i, q@));
}

/// Mutable access to one element of a vector.
fn vec_at_mut<T>(v: &mut Vec<T>, i: usize) -> (e: &mut T)
    requires
        i < old(v)@.len(),
    ensures
        *e == old(v)@[i as int],
        final(v)@ == old(v)@.update(i as int, *final(e)),
{
    &mut v[i]
}

/// The engine-wide name-to-queue map, owned by whoever constructs the
/// engine and passed explicitly to whatever needs cross-queue reach.
pub struct QueueRegistry {
    queues: Vec<QueueStore>,
}

impl View for QueueRegistry {
    type V = Seq<StoreModel>;

    closed spec fn view(&self) -> Seq<StoreModel> {
        store_models(self.queues@)
    }
}

impl QueueRegistry {
    /// Names unique, every store well-formed.
    pub open spec fn wf(&self) -> bool {
        reg_wf(self@)
    }

    /// Creates an empty registry.
    pub fn new() -> (r: QueueRegistry)
        ensures
            r@ == Seq::<StoreModel>::empty(),
            r.wf(),
    {
        let r = QueueRegistry { queues: Vec::new() };
        proof {
            assert(r@ =~= Seq::<StoreModel>::empty());
        }
        r
    }

    /// The index of the queue with the given name, if one is registered.
    pub fn lookup(&self, name: &str) -> (r: Option<usize>)
        ensures
            match r {
                Some(u) => find_store(self@, name@) == Some(u as int),
                None => find_store(self@, name@) is None,
            },
    {
        let wanted = name.to_owned();
        let n = self.queues.len();
        let mut j: usize = 0;
        while j < n
            invariant
                j <= n,
                n == self@.len(),
                wanted@ == name@,
                forall|k: int| 0 <= k < j ==> (#[trigger] self@[k]).name != name@,
            decreases n - j,
        {
            if *self.queues[j].name() == wanted {
                proof {
                    lemma_find_store_at(self@, name@, j as int);
                }
                return Some(j);
            }
            j = j + 1;
        }
        proof {
            lemma_find_store_bounds(self@, name@);
        }
        None
    }

    /// Registers a queue store under its name; a second queue with the
    /// same name is refused and nothing changes.
    pub fn register(&mut self, store: QueueStore) -> (r: Result<(), MSMQError>)
        requires
            old(self).wf(),
            store@.inv(),
        ensures
            final(self).wf(),
            match find_store(old(self)@, store@.name) {
                None => r is Ok && final(self)@ == old(self)@.push(store@),
                Some(_) => {
                    &&& final(self)@ == old(self)@
                    &&& r matches Err(MSMQError::DuplicateQueueName(n)) && n@ == store@.name
                },
            },
    {
        match self.lookup(store.name().as_str()) {
            Some(_) => Err(MSMQError::DuplicateQueueName(store.name().clone())),
            None => {
                proof {
                    lemma_find_store_bounds(self@, store@.name);
                    lemma_store_models_push(self.queues@, store);
                }
                self.queues.push(store);
                proof {
                    assert forall|i: int, j: int|
                        0 <= i < j < self@.len() implies (#[trigger] self@[i]).name != (
                    #[trigger] self@[j]).name by {
                        if j == self@.len() - 1 {
                            assert(old(self)@[i].name != store@.name);
                        }
                    }
                }
                Ok(())
            },
        }
    }

    /// The pending count of the named queue.
    pub fn message_count(&self, name: &str) -> (r: Result<usize, MSMQError>)
        ensures
            match find_store(self@, name@) {
                None => r matches Err(MSMQError::QueueNotFound(n)) && n@ == name@,
                Some(i) => {
                    &&& (match r {
                        Ok(c) => c == self@[i].dv().len(),
                        Err(_) => self@[i].dv().len() > usize::MAX,
                    })
                    &&& (self@[i].dv().len() <= usize::MAX ==> r is Ok)
                },
            },
    {
        match self.lookup(name) {
            None => Err(MSMQError::QueueNotFound(name.to_owned())),
            Some(i) => {
                proof {
                    lemma_find_store_bounds(self@, name@);
                }
                self.queues[i].message_count()
            },
        }
    }

    /// Sends a message to the named queue.
    pub fn send(&mut self, name: &str, message: Message) -> (r: Result<(), MSMQError>)
        requires
            old(self).wf(),
        ensures
            final(self).wf(),
            match find_store(old(self)@, name@) {
                None => {
                    &&& final(self)@ == old(self)@
                    &&& r matches Err(MSMQError::QueueNotFound(n)) && n@ == name@
                },
                Some(i) => {
                    &&& r is Ok
                    &&& final(self)@ == old(self)@.update(i, spec_send(old(self)@[i], message))
                },
            },
    {
        match self.lookup(name) {
            None => Err(MSMQError::QueueNotFound(name.to_owned())),
            Some(i) => {
                proof {
                    lemma_find_store_bounds(self@, name@);
                    lemma_spec_send_preserves_inv(self@[i as int], message);
                }
                let q = vec_at_mut(&mut self.queues, i);
                let r = q.send(message);
                proof {
                    lemma_store_models_update(
                        old(self).queues@,
                        i as int,
                        self.queues@[i as int],
                    );
                }
                r
            },
        }
    }

    /// Rebuilds the named queue from the durable log the registry holds
    /// for it, as recovery after a restart does: the returned queue holds
    /// exactly the pending messages (and journal) the stored queue held.
    pub fn recover(&self, name: &str) -> (r: Result<QueueStore, MSMQError>)
        requires
            self.wf(),
        ensures
            match find_store(self@, name@) {
                None => r matches Err(MSMQError::QueueNotFound(n)) && n@ == name@,
                Some(i) => r matches Ok(q) && {
                    &&& q@.inv()
                    &&& q@.name == self@[i].name
                    &&& q@.highs == self@[i].highs
                    &&& q@.lows == self@[i].lows
                    &&& q@.journal == self@[i].journal
                    &&& q@.journal_on == self@[i].journal_on
                    &&& q@.transactional == self@[i].transactional
                    &&& q@.credential == self@[i].credential
                    &&& q@.dlq_on == self@[i].dlq_on
                    &&& q@.dlq == Seq::<Message>::empty()
                },
            },
    {
        match self.lookup(name) {
            None => Err(MSMQError::QueueNotFound(name.to_owned())),
            Some(i) => {
                proof {
                    lemma_find_store_bounds(self@, name@);
                }
                Ok(self.queues[i].recovered())
            },
        }
    }

    /// The first buffered send without a usable target, rendered as the
    /// error commit would report; `None` when all targets are usable.
    pub(crate) fn check_targets(
        &self,
        ops: &Vec<(String, Message)>,
        need_transactional: bool,
    ) -> (r: Option<MSMQError>)
        ensures
            match first_bad_target(self@, ops@, need_transactional) {
                None => r is None,
                Some(bad) => r matches Some(e) && {
                    if find_store(self@, ops@[bad].0@) is None {
                        e matches MSMQError::QueueNotFound(n) && n@ == ops@[bad].0@
                    } else {
                        e matches MSMQError::TargetTypeMismatch(n) && n@ == ops@[bad].0@
                    }
                },
            },
    {
        let n = ops.len();
        let mut j: usize = 0;
        while j < n
            invariant
                j <= n,
                n == ops@.len(),
                forall|k: int| 0 <= k < j ==> target_ok(self@, #[trigger] ops@[k], need_transactional),
            decreases n - j,
        {
            match self.lookup(ops[j].0.as_str()) {
                None => {
                    proof {
                        lemma_first_bad_target_at(self@, ops@, need_transactional, j as int);
                    }
                    return Some(MSMQError::QueueNotFound(ops[j].0.clone()));
                },
                Some(i) => {
                    proof {
                        lemma_find_store_bounds(self@, ops@[j as int].0@);
                    }
                    if need_transactional && !self.queues[i].is_transactional() {
                        proof {
                            lemma_first_bad_target_at(self@, ops@, need_transactional, j as int);
                        }
                        return Some(MSMQError::TargetTypeMismatch(ops[j].0.clone()));
                    }
                },
            }
            j = j + 1;
        }
        proof {
            lemma_first_bad_target_none(self@, ops@, need_transactional);
        }
        None
    }

    /// Validates every buffered send and only then applies them all in
    /// order: all-or-nothing. On the first unusable target the matching
    /// error is returned and no queue has been changed.
    pub(crate) fn apply_sends(
        &mut self,
        ops: &Vec<(String, Message)>,
        need_transactional: bool,
    ) -> (r: Result<(), MSMQError>)
        requires
            old(self).wf(),
        ensures
            final(self).wf(),
            match first_bad_target(old(self)@, ops@, need_transactional) {
                None => {
                    &&& r is Ok
                    &&& final(self)@ == spec_apply_sends(old(self)@, ops@)
                },
                Some(bad) => {
                    &&& final(self)@ == old(self)@
                    &&& (match r {
                        Ok(_) => false,
                        Err(e) => {
                            if find_store(old(self)@, ops@[bad].0@) is None {
                                e matches MSMQError::QueueNotFound(n) && n@ == ops@[bad].0@
                            } else {
                                e matches MSMQError::TargetTypeMismatch(n) && n@ == ops@[bad].0@
                            }
                        },
                    })
                },
            },
    {
        match self.check_targets(ops, need_transactional) {
            Some(e) => Err(e),
            None => {
                let n = ops.len();
                let mut j: usize = 0;
                proof {
                    assert(ops@.take(0) =~= Seq::<(String, Message)>::empty());
                }
                while j < n
                    invariant
                        j <= n,
                        n == ops@.len(),
                        self.wf(),
                        self@.len() == old(self)@.len(),
                        forall|k: int|
                            0 <= k < old(self)@.len() ==> (#[trigger] self@[k]).name == old(
                                self,
                            )@[k].name,
                        first_bad_target(old(self)@, ops@, need_transactional) is None,
                        self@ == spec_apply_sends(old(self)@, ops@.take(j as int)),
                    decreases n - j,
                {
                    proof {
                        lemma_find_store_same_names(self@, old(self)@, ops@[j as int].0@);
                        lemma_first_bad_target_none_inv(
                            old(self)@,
                            ops@,
                            need_transactional,
                            j as int,
                        );
                        lemma_find_store_bounds(self@, ops@[j as int].0@);
                    }
                    let i = match self.lookup(ops[j].0.as_str()) {
                        Some(i) => i,
                        None => unreached(),
                    };
                    let message = ops[j].1.clone();
                    let ghost prev_queues = self.queues@;
                    let ghost prev = self@;
                    proof {
                        assert(prev[i as int] == prev_queues[i as int]@);
                        lemma_spec_send_preserves_inv(prev[i as int], message);
                    }
                    let q = vec_at_mut(&mut self.queues, i);
                    let _ = q.send(message);
                    proof {
                        lemma_store_models_update(prev_queues, i as int, self.queues@[i as int]);
                        assert(self@ == prev.update(i as int, spec_send(prev[i as int], message)));
                        assert(spec_apply_one(prev, ops@[j as int]) == prev.update(
                            i as int,
                            spec_send(prev[i as int], ops@[j as int].1),
                        ));
                        lemma_spec_apply_sends_snoc(old(self)@, ops@.take(j as int), ops@[j as int]);
                        assert(ops@.take(j as int).push(ops@[j as int]) =~= ops@.take(j as int + 1));
                    }
                    j = j + 1;
                    proof {
                        assert(self@ == spec_apply_sends(old(self)@, ops@.take(j as int)));
                    }
                }
                proof {
                    assert(ops@.take(n as int) =~= ops@);
                }
                Ok(())
            },
        }
    }
}

/// When no buffered send is unusable, each one in particular is usable.
pub proof fn lemma_first_bad_target_none_inv(
    reg: Seq<StoreModel>,
    ops: Seq<(String, Message)>,
    need_transactional: bool,
    j: int,
)
    requires
        first_bad_target(reg, ops, need_transactional) is None,
        0 <= j < ops.len(),
    ensures
        target_ok(reg, ops[j], need_transactional),
    decreases ops.len(),
{
    if j > 0 {
        lemma_first_bad_target_none_inv(reg, ops.drop_first(), need_transactional, j - 1);
    }
}

} // verus!
