//! Engine-wide ordering and audit laws, stated over the spec transitions
//! (`spec_send`, `spec_receive`) that every executable queue operation is
//! proved to implement.

use vstd::prelude::*;
use crate::message::Message;
use crate::registry::find_store;
use crate::registry::lemma_find_store_bounds;
use crate::registry::lemma_find_store_same_names;
use crate::registry::lemma_find_store_self;
use crate::registry::reg_wf;
use crate::registry::spec_apply_one;
use crate::registry::spec_apply_sends;
use crate::store::StoreModel;
use crate::store::spec_receive;
use crate::store::spec_send;

verus! {

/// Whether every message of the sequence has the default `Low` priority,
/// that is, carries no priority marker.
pub open spec fn all_low(msgs: Seq<Message>) -> bool {
    forall|i: int| 0 <= i < msgs.len() ==> (#[trigger] msgs[i]).spec_priority() is Low
}

/// The state after sending every message of `msgs`, in order.
pub open spec fn send_all(m: StoreModel, msgs: Seq<Message>) -> StoreModel
    decreases msgs.len(),
{
    if msgs.len() == 0 {
        m
    } else {
        send_all(spec_send(m, msgs.first()), msgs.drop_first())
    }
}

/// The state after `n` receives, paired with the messages they returned,
/// in order.
pub open spec fn drain(m: StoreModel, n: nat) -> (StoreModel, Seq<Message>)
    decreases n,
{
    if n == 0 {
        (m, Seq::<Message>::empty())
    } else {
        let step = spec_receive(m);
        let rest = drain(step.0, (n - 1) as nat);
        match step.1 {
            Some(msg) => (rest.0, seq![msg] + rest.1),
            None => (rest.0, rest.1),
        }
    }
}

/// Sending appends: the high-priority bucket gains exactly the `High`
/// messages and the low-priority bucket the rest, both in sending order,
/// and the configuration flags are untouched. Each send adds exactly one
/// journal entry to a journaled store.
pub proof fn lemma_send_all_effect(m: StoreModel, msgs: Seq<Message>)
    ensures
        send_all(m, msgs).highs == m.highs + msgs.filter(|x: Message| x.spec_priority() is High),
        send_all(m, msgs).lows == m.lows + msgs.filter(|x: Message| !(x.spec_priority() is High)),
        send_all(m, msgs).journal.len() == m.journal.len() + (if m.journal_on {
            msgs.len()
        } else {
            0
        }),
        send_all(m, msgs).journal_on == m.journal_on,
    decreases msgs.len(),
{
    let high = |x: Message| x.spec_priority() is High;
    let low = |x: Message| !(x.spec_priority() is High);
    if msgs.len() == 0 {
        assert(msgs.filter(high) =~= Seq::<Message>::empty());
        assert(msgs.filter(low) =~= Seq::<Message>::empty());
        assert(m.highs + msgs.filter(high) =~= m.highs);
        assert(m.lows + msgs.filter(low) =~= m.lows);
    } else {
        let first = msgs.first();
        let m1 = spec_send(m, first);
        lemma_send_all_effect(m1, msgs.drop_first());
        lemma_filter_first(msgs, high);
        lemma_filter_first(msgs, low);
        if first.spec_priority() is High {
            assert(m1.highs + msgs.drop_first().filter(high) =~= m.highs + msgs.filter(high));
            assert(m1.lows + msgs.drop_first().filter(low) =~= m.lows + msgs.filter(low));
        } else {
            assert(m1.highs + msgs.drop_first().filter(high) =~= m.highs + msgs.filter(high));
            assert(m1.lows + msgs.drop_first().filter(low) =~= m.lows + msgs.filter(low));
        }
    }
}

/// Filtering a nonempty sequence splits into the head's contribution and
/// the filtered tail.
pub proof fn lemma_filter_first<A>(msgs: Seq<A>, pred: spec_fn(A) -> bool)
    requires
        msgs.len() > 0,
    ensures
        msgs.filter(pred) == (if pred(msgs.first()) {
            seq![msgs.first()] + msgs.drop_first().filter(pred)
        } else {
            msgs.drop_first().filter(pred)
        }),
{
    let head = seq![msgs.first()];
    assert(msgs =~= head + msgs.drop_first());
    Seq::filter_distributes_over_add(head, msgs.drop_first(), pred);
    reveal_with_fuel(Seq::<_>::filter, 2);
    assert(head.drop_last() =~= Seq::<A>::empty());
    if pred(msgs.first()) {
        assert(head.filter(pred) =~= head);
    } else {
        assert(head.filter(pred) =~= Seq::<A>::empty());
        assert(Seq::<A>::empty() + msgs.drop_first().filter(pred) =~= msgs.drop_first()
            .filter(pred));
    }
}

/// Draining a store with no pending high-priority messages returns the
/// first `n` low-priority messages in arrival order.
pub proof fn lemma_drain_lows(m: StoreModel, n: nat)
    requires
        m.highs.len() == 0,
        n <= m.lows.len(),
    ensures
        drain(m, n).1 == m.lows.take(n as int),
        drain(m, n).0.highs.len() == 0,
        drain(m, n).0.lows == m.lows.skip(n as int),
    decreases n,
{
    if n == 0 {
        assert(m.lows.take(0) =~= Seq::<Message>::empty());
        assert(m.lows.skip(0) =~= m.lows);
    } else {
        let step = spec_receive(m);
        lemma_drain_lows(step.0, (n - 1) as nat);
        assert(step.0.lows == m.lows.drop_first());
        assert(m.lows.drop_first().take(n as int - 1) =~= m.lows.take(n as int).drop_first());
        assert(seq![m.lows.first()] + m.lows.take(n as int).drop_first() =~= m.lows.take(n as int));
        assert(m.lows.drop_first().skip(n as int - 1) =~= m.lows.skip(n as int));
    }
}

/// First-in, first-out: for any sequence of sends of messages carrying
/// no priority marker on a queue with nothing pending, receiving them
/// all returns exactly the sent messages in the order they were sent.
pub proof fn lemma_fifo(m: StoreModel, msgs: Seq<Message>)
    requires
        m.highs.len() == 0,
        m.lows.len() == 0,
        all_low(msgs),
    ensures
        drain(send_all(m, msgs), msgs.len()).1 == msgs,
{
    lemma_send_all_effect(m, msgs);
    let after = send_all(m, msgs);
    assert(msgs.filter(|x: Message| x.spec_priority() is High) =~= Seq::<Message>::empty()) by {
        lemma_filter_all_false(msgs, |x: Message| x.spec_priority() is High);
    }
    assert(after.highs =~= Seq::<Message>::empty());
    assert(after.lows =~= msgs) by {
        lemma_filter_all_true(msgs, |x: Message| !(x.spec_priority() is High));
        assert(m.lows + msgs.filter(|x: Message| !(x.spec_priority() is High)) =~= msgs.filter(
            |x: Message| !(x.spec_priority() is High),
        ));
    }
    lemma_drain_lows(after, msgs.len());
    assert(msgs.take(msgs.len() as int) =~= msgs);
}

/// A filter whose predicate rejects every element is empty.
pub proof fn lemma_filter_all_false<A>(msgs: Seq<A>, pred: spec_fn(A) -> bool)
    requires
        forall|i: int| 0 <= i < msgs.len() ==> !pred(#[trigger] msgs[i]),
    ensures
        msgs.filter(pred) == Seq::<A>::empty(),
    decreases msgs.len(),
{
    reveal_with_fuel(Seq::<_>::filter, 2);
    if msgs.len() > 0 {
        lemma_filter_all_false(msgs.drop_last(), pred);
    }
}

/// A filter whose predicate accepts every element changes nothing.
pub proof fn lemma_filter_all_true<A>(msgs: Seq<A>, pred: spec_fn(A) -> bool)
    requires
        forall|i: int| 0 <= i < msgs.len() ==> pred(#[trigger] msgs[i]),
    ensures
        msgs.filter(pred) == msgs,
    decreases msgs.len(),
{
    reveal_with_fuel(Seq::<_>::filter, 2);
    if msgs.len() > 0 {
        lemma_filter_all_true(msgs.drop_last(), pred);
        assert(msgs.drop_last().push(msgs.last()) =~= msgs);
    }
}

/// Priority: whenever any high-priority message is pending — however
/// long a low-priority message may have been waiting — the next receive
/// returns a high-priority message, namely the earliest-arrived one.
pub proof fn lemma_high_priority_first(m: StoreModel)
    requires
        m.inv(),
        m.highs.len() > 0,
    ensures
        spec_receive(m).1 == Some(m.highs.first()),
        m.highs.first().spec_priority() is High,
{
    assert(m.highs[0].spec_priority() is High);
}

/// Draining a journaled store adds one audit entry per message received
/// and removes one pending message per receive.
pub proof fn lemma_drain_journal(m: StoreModel, n: nat)
    requires
        m.journal_on,
        n <= m.dv().len(),
    ensures
        drain(m, n).0.journal.len() == m.journal.len() + n,
        drain(m, n).0.dv().len() == m.dv().len() - n,
        drain(m, n).0.journal_on,
    decreases n,
{
    if n > 0 {
        let step = spec_receive(m);
        lemma_drain_journal(step.0, (n - 1) as nat);
    }
}

/// The journal audit law: a journaled queue that starts empty and sees
/// `msgs.len()` sends followed by `n` receives (no more receives than
/// sends) holds exactly one journal entry per send plus one per receive.
pub proof fn lemma_journal_length(m: StoreModel, msgs: Seq<Message>, n: nat)
    requires
        m.journal_on,
        m.journal.len() == 0,
        m.highs.len() == 0,
        m.lows.len() == 0,
        n <= msgs.len(),
    ensures
        drain(send_all(m, msgs), n).0.journal.len() == msgs.len() + n,
{
    lemma_send_all_effect(m, msgs);
    let after = send_all(m, msgs);
    let high = |x: Message| x.spec_priority() is High;
    let low = |x: Message| !(x.spec_priority() is High);
    lemma_filter_split_len(msgs, high, low);
    assert(after.highs =~= msgs.filter(high));
    assert(after.lows =~= msgs.filter(low));
    assert(after.dv().len() == msgs.len());
    lemma_drain_journal(after, n);
}

/// Two predicates that complement each other on a sequence split it:
/// the parts each accepts together have the length of the whole.
pub proof fn lemma_filter_split_len<A>(
    msgs: Seq<A>,
    p1: spec_fn(A) -> bool,
    p2: spec_fn(A) -> bool,
)
    requires
        forall|i: int| 0 <= i < msgs.len() ==> (p1(#[trigger] msgs[i]) <==> !p2(msgs[i])),
    ensures
        msgs.filter(p1).len() + msgs.filter(p2).len() == msgs.len(),
    decreases msgs.len(),
{
    reveal_with_fuel(Seq::<_>::filter, 2);
    if msgs.len() > 0 {
        lemma_filter_split_len(msgs.drop_last(), p1, p2);
    }
}

/// The messages of a buffer of sends, in buffering order.
pub open spec fn messages_of(ops: Seq<(String, Message)>) -> Seq<Message> {
    ops.map(|k: int, op: (String, Message)| op.1)
}

/// The part of a buffer that targets the named queue, in buffering order.
pub open spec fn ops_for(ops: Seq<(String, Message)>, name: Seq<char>) -> Seq<(String, Message)>
    decreases ops.len(),
{
    if ops.len() == 0 {
        Seq::<(String, Message)>::empty()
    } else if ops.first().0@ == name {
        seq![ops.first()] + ops_for(ops.drop_first(), name)
    } else {
        ops_for(ops.drop_first(), name)
    }
}

/// A buffer whose sends all target the named queue is its own part.
pub proof fn lemma_ops_for_all(ops: Seq<(String, Message)>, name: Seq<char>)
    requires
        forall|k: int| 0 <= k < ops.len() ==> (#[trigger] ops[k]).0@ == name,
    ensures
        ops_for(ops, name) == ops,
    decreases ops.len(),
{
    if ops.len() > 0 {
        lemma_ops_for_all(ops.drop_first(), name);
        assert(seq![ops.first()] + ops.drop_first() =~= ops);
    }
}

/// A buffer none of whose sends targets the named queue has an empty part.
pub proof fn lemma_ops_for_none(ops: Seq<(String, Message)>, name: Seq<char>)
    requires
        forall|k: int| 0 <= k < ops.len() ==> (#[trigger] ops[k]).0@ != name,
    ensures
        ops_for(ops, name) == Seq::<(String, Message)>::empty(),
    decreases ops.len(),
{
    if ops.len() > 0 {
        lemma_ops_for_none(ops.drop_first(), name);
    }
}

/// Mapping a buffer to its messages commutes with splitting off the head.
proof fn lemma_messages_of_first(ops: Seq<(String, Message)>)
    requires
        ops.len() > 0,
    ensures
        messages_of(ops) == seq![ops.first().1] + messages_of(ops.drop_first()),
{
    assert(messages_of(ops) =~= seq![ops.first().1] + messages_of(ops.drop_first()));
}

/// The decomposition law behind transactional commit: applying a buffer
/// of sends to a registry leaves every queue exactly as if the sends
/// that target it — and only those — had been sent to it directly, in
/// buffering order. In particular each participant of a committed
/// distributed transaction reflects precisely its own buffered sends,
/// and a queue no send targets is untouched.
pub proof fn lemma_apply_sends_per_queue(
    reg: Seq<StoreModel>,
    ops: Seq<(String, Message)>,
    name: Seq<char>,
)
    ensures
        spec_apply_sends(reg, ops).len() == reg.len(),
        match find_store(reg, name) {
            Some(i) => spec_apply_sends(reg, ops)[i] == send_all(
                reg[i],
                messages_of(ops_for(ops, name)),
            ),
            None => true,
        },
    decreases ops.len(),
{
    if ops.len() == 0 {
        match find_store(reg, name) {
            Some(i) => {
                assert(messages_of(ops_for(ops, name)) =~= Seq::<Message>::empty());
            },
            None => {},
        }
        return;
    }
    let op0 = ops.first();
    let rest = ops.drop_first();
    let reg1 = spec_apply_one(reg, op0);
    lemma_find_store_bounds(reg, op0.0@);
    match find_store(reg, op0.0@) {
        None => {
            lemma_apply_sends_per_queue(reg, rest, name);
            match find_store(reg, name) {
                Some(i) => {
                    assert(op0.0@ != name);
                    assert(ops_for(ops, name) == ops_for(rest, name));
                },
                None => {},
            }
        },
        Some(t) => {
            assert(reg1 == reg.update(t, spec_send(reg[t], op0.1)));
            assert(forall|k: int| 0 <= k < reg.len() ==> (#[trigger] reg1[k]).name == reg[k].name);
            lemma_find_store_same_names(reg1, reg, name);
            lemma_apply_sends_per_queue(reg1, rest, name);
            match find_store(reg, name) {
                Some(i) => {
                    if op0.0@ == name {
                        assert(t == i);
                        assert(reg1[i] == spec_send(reg[i], op0.1));
                        assert(ops_for(ops, name) == seq![op0] + ops_for(rest, name));
                        lemma_messages_of_first(seq![op0] + ops_for(rest, name));
                        assert((seq![op0] + ops_for(rest, name)).first() == op0);
                        assert((seq![op0] + ops_for(rest, name)).drop_first() =~= ops_for(
                            rest,
                            name,
                        ));
                        let msgs = messages_of(ops_for(ops, name));
                        assert(msgs == seq![op0.1] + messages_of(ops_for(rest, name)));
                        assert(msgs.first() == op0.1);
                        assert(msgs.drop_first() =~= messages_of(ops_for(rest, name)));
                        assert(send_all(reg[i], msgs) == send_all(
                            spec_send(reg[i], op0.1),
                            msgs.drop_first(),
                        ));
                    } else {
                        lemma_find_store_bounds(reg, name);
                        assert(reg[t].name == op0.0@);
                        assert(reg[i].name == name);
                        assert(t != i);
                        assert(reg1[i] == reg[i]);
                        assert(ops_for(ops, name) == ops_for(rest, name));
                    }
                },
                None => {},
            }
        },
    }
}

/// The local-transaction law: committing a buffer of unmarked
/// (low-priority) sends that all target one registered queue appends
/// exactly the buffered messages to that queue, in buffering order,
/// raises its pending count by exactly the buffered amount, and leaves
/// every other queue of the registry unchanged. Together with
/// `Transaction::commit`'s postcondition this pins what a commit does;
/// a transaction that is dropped instead never touches the registry.
pub proof fn lemma_local_commit_effect(
    reg: Seq<StoreModel>,
    ops: Seq<(String, Message)>,
    name: Seq<char>,
)
    requires
        reg_wf(reg),
        forall|k: int| 0 <= k < ops.len() ==> (#[trigger] ops[k]).0@ == name,
        all_low(messages_of(ops)),
        find_store(reg, name) is Some,
    ensures
        spec_apply_sends(reg, ops).len() == reg.len(),
        match find_store(reg, name) {
            Some(i) => {
                &&& spec_apply_sends(reg, ops)[i].lows == reg[i].lows + messages_of(ops)
                &&& spec_apply_sends(reg, ops)[i].highs == reg[i].highs
                &&& spec_apply_sends(reg, ops)[i].dv().len() == reg[i].dv().len() + ops.len()
                &&& forall|j: int|
                    0 <= j < reg.len() && j != i ==> spec_apply_sends(reg, ops)[j] == reg[j]
            },
            None => false,
        },
{
    let i = match find_store(reg, name) {
        Some(i) => i,
        None => 0int,
    };
    lemma_find_store_bounds(reg, name);
    lemma_apply_sends_per_queue(reg, ops, name);
    lemma_ops_for_all(ops, name);
    let msgs = messages_of(ops);
    lemma_send_all_effect(reg[i], msgs);
    lemma_filter_all_false(msgs, |x: Message| x.spec_priority() is High);
    lemma_filter_all_true(msgs, |x: Message| !(x.spec_priority() is High));
    assert(reg[i].highs + msgs.filter(|x: Message| x.spec_priority() is High) =~= reg[i].highs);
    assert(spec_apply_sends(reg, ops)[i].dv().len() == reg[i].dv().len() + ops.len());
    assert forall|j: int|
        0 <= j < reg.len() && j != i implies spec_apply_sends(reg, ops)[j] == reg[j] by {
        lemma_find_store_self(reg, j);
        lemma_apply_sends_per_queue(reg, ops, reg[j].name);
        assert(reg[j].name != name);
        lemma_ops_for_none(ops, reg[j].name);
        assert(messages_of(ops_for(ops, reg[j].name)) =~= Seq::<Message>::empty());
    }
}

} // verus!
