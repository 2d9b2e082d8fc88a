//! The registry of live connections and the fan-out of one message to all
//! of them.

use crate::channel::{offer, Delivery};
use std::collections::HashMap;
use tokio::sync::mpsc::Sender;
use vstd::prelude::*;
use vstd::std_specs::iter::IteratorSpec;

verus! {

broadcast use vstd::std_specs::hash::group_hash_axioms;

/// One attempt to enqueue a message on the outbound channel of `target`.
#[derive(Clone, Copy, Debug, PartialEq, Eq)]
pub struct Attempt {
    pub target: u128,
    pub outcome: Delivery,
}

/// The identifiers that a report speaks of, in the report's order.
pub open spec fn targets(report: Seq<Attempt>) -> Seq<u128> {
    report.map_values(|a: Attempt| a.target)
}

/// Whether a report holds exactly one attempt for every identifier of the
/// registry, and none for any other.
pub open spec fn covers(report: Seq<Attempt>, registry: Map<u128, Sender<String>>) -> bool {
    &&& targets(report).no_duplicates()
    &&& targets(report).to_set() == registry.dom()
}

/// The attempts of a report that failed, in the report's order.
pub open spec fn failures(report: Seq<Attempt>) -> Seq<Attempt> {
    report.filter(|a: Attempt| a.outcome.failed())
}

/// The mapping after each entry of `entries`, an identifier with its
/// channel, has been registered in turn.
pub open spec fn registered_all(
    start: Map<u128, Sender<String>>,
    entries: Seq<(u128, Sender<String>)>,
) -> Map<u128, Sender<String>>
    decreases entries.len(),
{
    if entries.len() == 0 {
        start
    } else {
        registered_all(start, entries.drop_last()).insert(entries.last().0, entries.last().1)
    }
}

/// The mapping after each identifier of `ids` has been deregistered in
/// turn.
pub open spec fn deregistered_all(start: Map<u128, Sender<String>>, ids: Seq<u128>) -> Map<
    u128,
    Sender<String>,
>
    decreases ids.len(),
{
    if ids.len() == 0 {
        start
    } else {
        deregistered_all(start, ids.drop_last()).remove(ids.last())
    }
}

/// The identifiers of `entries`, in their order.
pub open spec fn identifiers(entries: Seq<(u128, Sender<String>)>) -> Seq<u128> {
    entries.map_values(|e: (u128, Sender<String>)| e.0)
}

/// The mapping from connection identifier to that connection's outbound
/// channel. Every method takes the registry by reference, `&mut` where it
/// changes the mapping, so no caller ever sees it half updated.
pub struct Registry {
    channels: HashMap<u128, Sender<String>>,
}

impl View for Registry {
    type V = Map<u128, Sender<String>>;

    closed spec fn view(&self) -> Map<u128, Sender<String>> {
        self.channels@
    }
}

impl Registry {
    /// A registry without connections.
    pub fn new() -> (registry: Registry)
        ensures
            registry@ == Map::<u128, Sender<String>>::empty(),
    {
        Registry { channels: HashMap::new() }
    }

    /// Maps `id` to `channel`. An identifier that is already registered
    /// keeps its single entry, which then holds the new channel; a new one
    /// makes the registry grow by one.
    pub fn register(&mut self, id: u128, channel: Sender<String>)
        ensures
            final(self)@ == old(self)@.insert(id, channel),
            final(self)@.len() == old(self)@.len() + if old(self)@.contains_key(id) {
                0nat
            } else {
                1nat
            },
    {
        self.channels.insert(id, channel);
    }

    /// Removes the entry of `id`, if there is one: the registry then
    /// shrinks by one. Without such an entry nothing changes.
    pub fn deregister(&mut self, id: u128)
        ensures
            final(self)@ == old(self)@.remove(id),
            !old(self)@.contains_key(id) ==> final(self)@ == old(self)@,
            final(self)@.len() == old(self)@.len() - if old(self)@.contains_key(id) {
                1nat
            } else {
                0nat
            },
    {
        self.channels.remove(&id);
        proof {
            if !old(self)@.contains_key(id) {
                assert(old(self)@.remove(id) =~= old(self)@);
            }
        }
    }

    /// The number of registered connections.
    pub fn size(&self) -> (count: usize)
        ensures
            self@.dom().finite(),
            count == self@.len(),
    {
        self.channels.len()
    }

    /// Whether `id` is registered.
    pub fn contains(&self, id: u128) -> (found: bool)
        ensures
            found == self@.contains_key(id),
    {
        self.channels.contains_key(&id)
    }

    /// Offers `payload` to the outbound channel of every registered
    /// connection, the sender's own included, and reports each attempt.
    ///
    /// An attempt that fails, because the channel is full or its consumer is
    /// gone, concerns its own target only: whatever the channels answer, the
    /// report holds one attempt for every registered identifier, and the
    /// call returns without waiting for any of them.
    pub fn broadcast(&self, payload: &str) -> (report: Vec<Attempt>)
        ensures
            covers(report@, self@),
            report@.len() == self@.len(),
    {
        let entries = self.channels.iter();
        let ghost pairs = entries.remaining();
        let mut report: Vec<Attempt> = Vec::new();
        for entry in it: entries
            invariant
                it.seq() == pairs,
                report@.len() == it.index(),
                forall|j: int| 0 <= j < it.index() ==> (#[trigger] report@[j]).target == *pairs[j].0,
        {
            let (id, channel) = entry;
            let outcome = offer(channel, payload);
            report.push(Attempt { target: *id, outcome });
        }
        proof {
            let ids = targets(report@);
            assert forall|i: int, j: int| 0 <= i < ids.len() && 0 <= j < ids.len() && i != j
                implies ids[i] != ids[j] by {
                if ids[i] == ids[j] {
                    assert(self.channels@[*pairs[i].0] == *pairs[i].1);
                    assert(self.channels@[*pairs[j].0] == *pairs[j].1);
                    assert(pairs[i] == pairs[j]);
                }
            }
            assert forall|id: u128| ids.to_set().contains(id) <==> self@.dom().contains(id) by {
                if ids.to_set().contains(id) {
                    let i = choose|i: int| 0 <= i < ids.len() && ids[i] == id;
                    assert(self.channels@.contains_key(*pairs[i].0));
                }
                if self@.dom().contains(id) {
                    assert(pairs.contains((&id, &self.channels@[id])));
                    let i = choose|i: int| 0 <= i < pairs.len() && pairs[i] == (&id, &self.channels@[id]);
                    assert(ids[i] == id);
                }
            }
            assert(ids.to_set() =~= self@.dom());
        }
        report
    }
}

/// The attempts of `report` that failed, for the log: each with its target
/// and with what the channel answered.
pub fn undelivered(report: &Vec<Attempt>) -> (failed: Vec<Attempt>)
    ensures
        failed@ == failures(report@),
{
    let mut failed: Vec<Attempt> = Vec::new();
    let mut i: usize = 0;
    proof {
        reveal(Seq::filter);
        assert(report@.take(0) =~= Seq::<Attempt>::empty());
    }
    while i < report.len()
        invariant
            i <= report.len(),
            failed@ == failures(report@.take(i as int)),
        decreases report.len() - i,
    {
        let attempt = report[i];
        proof {
            reveal(Seq::filter);
            assert(report@.take(i + 1).drop_last() =~= report@.take(i as int));
            assert(report@.take(i + 1).last() == attempt);
        }
        if attempt.outcome.is_failure() {
            failed.push(attempt);
        }
        i += 1;
    }
    assert(report@.take(i as int) =~= report@);
    failed
}

proof fn lemma_registered_all_dom(
    start: Map<u128, Sender<String>>,
    entries: Seq<(u128, Sender<String>)>,
)
    ensures
        registered_all(start, entries).dom() == start.dom().union(identifiers(entries).to_set()),
    decreases entries.len(),
{
    let ids = identifiers(entries);
    if entries.len() == 0 {
        assert(ids.to_set() =~= Set::<u128>::empty());
        assert(start.dom().union(ids.to_set()) =~= start.dom());
    } else {
        let rest = entries.drop_last();
        lemma_registered_all_dom(start, rest);
        assert(identifiers(rest) =~= ids.drop_last());
        assert forall|id: u128| ids.to_set().contains(id) <==> (ids.drop_last().to_set().contains(
            id,
        ) || id == entries.last().0) by {
            if ids.to_set().contains(id) {
                let i = choose|i: int| 0 <= i < ids.len() && ids[i] == id;
                if i < ids.len() - 1 {
                    assert(ids.drop_last()[i] == id);
                }
            }
            if ids.drop_last().to_set().contains(id) {
                let i = choose|i: int| 0 <= i < ids.drop_last().len() && ids.drop_last()[i] == id;
                assert(ids[i] == id);
            }
            if id == entries.last().0 {
                assert(ids[ids.len() - 1] == id);
            }
        }
        assert(registered_all(start, entries).dom() =~= start.dom().union(ids.to_set()));
    }
}

proof fn lemma_deregistered_all_dom(start: Map<u128, Sender<String>>, ids: Seq<u128>)
    ensures
        deregistered_all(start, ids).dom() == start.dom().difference(ids.to_set()),
    decreases ids.len(),
{
    if ids.len() == 0 {
        assert(ids.to_set() =~= Set::<u128>::empty());
        assert(start.dom().difference(ids.to_set()) =~= start.dom());
    } else {
        lemma_deregistered_all_dom(start, ids.drop_last());
        assert forall|id: u128| ids.to_set().contains(id) <==> (ids.drop_last().to_set().contains(
            id,
        ) || id == ids.last()) by {
            if ids.to_set().contains(id) {
                let i = choose|i: int| 0 <= i < ids.len() && ids[i] == id;
                if i < ids.len() - 1 {
                    assert(ids.drop_last()[i] == id);
                }
            }
            if ids.drop_last().to_set().contains(id) {
                let i = choose|i: int| 0 <= i < ids.drop_last().len() && ids.drop_last()[i] == id;
                assert(ids[i] == id);
            }
            if id == ids.last() {
                assert(ids[ids.len() - 1] == id);
            }
        }
        assert(deregistered_all(start, ids).dom() =~= start.dom().difference(ids.to_set()));
    }
}

/// The size of the registry counts the sessions. When sessions with
/// distinct identifiers register with an empty registry, one after another,
/// the registry then holds exactly their identifiers, as many as there are
/// sessions. When each of them has deregistered, in whatever order and
/// however often, the registry is empty again.
pub proof fn lemma_size_counts_sessions(entries: Seq<(u128, Sender<String>)>, order: Seq<u128>)
    requires
        identifiers(entries).no_duplicates(),
        forall|id: u128| identifiers(entries).contains(id) ==> order.contains(id),
    ensures
        registered_all(Map::empty(), entries).dom() == identifiers(entries).to_set(),
        registered_all(Map::empty(), entries).dom().finite(),
        registered_all(Map::empty(), entries).len() == entries.len(),
        deregistered_all(registered_all(Map::empty(), entries), order) == Map::<
            u128,
            Sender<String>,
        >::empty(),
        deregistered_all(registered_all(Map::empty(), entries), order).len() == 0,
{
    let ids = identifiers(entries);
    let full = registered_all(Map::empty(), entries);
    lemma_registered_all_dom(Map::empty(), entries);
    assert(full.dom() =~= ids.to_set());
    ids.unique_seq_to_set();
    lemma_deregistered_all_dom(full, order);
    let emptied = deregistered_all(full, order);
    assert(emptied.dom() =~= Set::<u128>::empty());
    assert(emptied =~= Map::<u128, Sender<String>>::empty());
}

/// Deregistering is idempotent: a second removal of the same identifier,
/// and the removal of an identifier that is not registered, leave the
/// mapping as it was.
pub proof fn lemma_deregister_idempotent(registry: Map<u128, Sender<String>>, id: u128)
    ensures
        registry.remove(id).remove(id) == registry.remove(id),
        !registry.contains_key(id) ==> registry.remove(id) == registry,
{
    assert(registry.remove(id).remove(id) =~= registry.remove(id));
    if !registry.contains_key(id) {
        assert(registry.remove(id) =~= registry);
    }
}

/// A message reaches out to everyone. In a report that covers the registry,
/// every registered identifier, the sender's own among them, has exactly one
/// attempt, whatever became of the attempts for the others.
pub proof fn lemma_each_target_attempted_once(
    report: Seq<Attempt>,
    registry: Map<u128, Sender<String>>,
    id: u128,
)
    requires
        covers(report, registry),
        registry.contains_key(id),
    ensures
        exists|i: int| 0 <= i < report.len() && (#[trigger] report[i]).target == id,
        forall|i: int, j: int|
            0 <= i < report.len() && 0 <= j < report.len() && (#[trigger] report[i]).target == id
                && (#[trigger] report[j]).target == id ==> i == j,
{
    let ids = targets(report);
    assert(ids.to_set().contains(id));
    let k = choose|k: int| 0 <= k < ids.len() && ids[k] == id;
    assert(report[k].target == id);
    assert forall|i: int, j: int|
        0 <= i < report.len() && 0 <= j < report.len() && (#[trigger] report[i]).target == id
            && (#[trigger] report[j]).target == id implies i == j by {
        assert(ids[i] == id && ids[j] == id);
    }
}

/// A failure stays with its target. The failures of a report are exactly
/// those of its attempts whose own outcome is a failure: an attempt that
/// was queued is never among them, whatever the other channels answered.
pub proof fn lemma_failures_are_local(report: Seq<Attempt>, attempt: Attempt)
    ensures
        failures(report).contains(attempt) <==> report.contains(attempt)
            && attempt.outcome.failed(),
        failures(report).len() <= report.len(),
{
    let failed = |a: Attempt| a.outcome.failed();
    report.lemma_filter_len(failed);
    if failures(report).contains(attempt) {
        report.lemma_filter_contains_rev(failed, attempt);
        let i = choose|i: int| 0 <= i < failures(report).len() && failures(report)[i] == attempt;
        report.lemma_filter_pred(failed, i);
    }
    if report.contains(attempt) && attempt.outcome.failed() {
        let i = choose|i: int| 0 <= i < report.len() && report[i] == attempt;
        report.lemma_filter_contains(failed, i);
    }
}

} // verus!
