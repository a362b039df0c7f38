//! The link registry: the mapping from actor identifier to backend
//! connection handle.
//!
//! The registry is the only state shared across concurrent calls. The
//! embedding process guards one process-wide instance with a reader/writer
//! lock and keeps every backend operation outside the critical section; the
//! structure itself is verified sequentially, and the write lemmas below say
//! what any interleaving of writes leaves behind for each actor.

use vstd::prelude::*;

verus! {

/// One registry entry: an actor identifier and its connection handle.
pub(crate) struct LinkEntry {
    pub actor_id: String,
    pub client: aws_sdk_sqs::Client,
}

/// The mapping that a sequence of entries stands for: later entries win.
pub(crate) open spec fn entries_map(s: Seq<LinkEntry>) -> Map<Seq<char>, aws_sdk_sqs::Client>
    decreases s.len(),
{
    if s.len() == 0 {
        Map::empty()
    } else {
        entries_map(s.drop_last()).insert(s.last().actor_id@, s.last().client)
    }
}

/// No two entries name the same actor.
pub(crate) open spec fn distinct_actor_ids(s: Seq<LinkEntry>) -> bool {
    forall|i: int, j: int| 0 <= i < j < s.len() ==> s[i].actor_id@ != s[j].actor_id@
}

proof fn lemma_entries_map_dom(s: Seq<LinkEntry>)
    ensures
        forall|k: Seq<char>|
            #[trigger] entries_map(s).contains_key(k) <==> exists|i: int|
                0 <= i < s.len() && s[i].actor_id@ == k,
    decreases s.len(),
{
    if s.len() > 0 {
        lemma_entries_map_dom(s.drop_last());
        assert forall|k: Seq<char>| #[trigger] entries_map(s).contains_key(k) implies exists|i: int|
            0 <= i < s.len() && s[i].actor_id@ == k by {
            if k == s.last().actor_id@ {
                assert(s[s.len() - 1].actor_id@ == k);
            } else {
                assert(entries_map(s.drop_last()).contains_key(k));
                let i = choose|i: int|
                    0 <= i < s.drop_last().len() && s.drop_last()[i].actor_id@ == k;
                assert(s[i].actor_id@ == k);
            }
        }
        assert forall|k: Seq<char>| (exists|i: int| 0 <= i < s.len() && s[i].actor_id@ == k)
            implies #[trigger] entries_map(s).contains_key(k) by {
            let i = choose|i: int| 0 <= i < s.len() && s[i].actor_id@ == k;
            if i < s.len() - 1 {
                assert(s.drop_last()[i].actor_id@ == k);
                assert(exists|j: int|
                    0 <= j < s.drop_last().len() && s.drop_last()[j].actor_id@ == k);
                assert(entries_map(s.drop_last()).contains_key(k));
            } else {
                assert(k == s.last().actor_id@);
            }
        }
    }
}

proof fn lemma_entries_map_at(s: Seq<LinkEntry>, idx: int)
    requires
        distinct_actor_ids(s),
        0 <= idx < s.len(),
    ensures
        entries_map(s).contains_key(s[idx].actor_id@),
        entries_map(s)[s[idx].actor_id@] == s[idx].client,
    decreases s.len(),
{
    if idx < s.len() - 1 {
        assert(distinct_actor_ids(s.drop_last()));
        lemma_entries_map_at(s.drop_last(), idx);
        assert(s.drop_last()[idx] == s[idx]);
        assert(s[idx].actor_id@ != s.last().actor_id@);
    }
}

proof fn lemma_distinct_remove(s: Seq<LinkEntry>, idx: int)
    requires
        distinct_actor_ids(s),
        0 <= idx < s.len(),
    ensures
        distinct_actor_ids(s.remove(idx)),
{
    let t = s.remove(idx);
    assert forall|i: int, j: int| 0 <= i < j < t.len() implies t[i].actor_id@
        != t[j].actor_id@ by {
        let si: int = if i < idx { i } else { i + 1 };
        let sj: int = if j < idx { j } else { j + 1 };
        assert(t[i] == s[si]);
        assert(t[j] == s[sj]);
    }
}

proof fn lemma_entries_map_remove(s: Seq<LinkEntry>, idx: int)
    requires
        distinct_actor_ids(s),
        0 <= idx < s.len(),
    ensures
        entries_map(s.remove(idx)) == entries_map(s).remove(s[idx].actor_id@),
    decreases s.len(),
{
    let k = s[idx].actor_id@;
    if idx == s.len() - 1 {
        assert(s.remove(idx) =~= s.drop_last());
        lemma_entries_map_dom(s.drop_last());
        assert(!entries_map(s.drop_last()).contains_key(k)) by {
            if entries_map(s.drop_last()).contains_key(k) {
                let i = choose|i: int|
                    0 <= i < s.drop_last().len() && s.drop_last()[i].actor_id@ == k;
                assert(s[i].actor_id@ == s[s.len() - 1].actor_id@);
            }
        }
        assert(entries_map(s.drop_last()).insert(k, s.last().client).remove(k) =~= entries_map(
            s.drop_last(),
        ));
    } else {
        let t = s.remove(idx);
        assert(distinct_actor_ids(s.drop_last()));
        lemma_entries_map_remove(s.drop_last(), idx);
        assert(t.last() == s.last());
        assert(t.drop_last() =~= s.drop_last().remove(idx));
        assert(s.last().actor_id@ != k);
        assert(entries_map(s.drop_last()).remove(k).insert(
            s.last().actor_id@,
            s.last().client,
        ) =~= entries_map(s.drop_last()).insert(s.last().actor_id@, s.last().client).remove(k));
    }
}

proof fn lemma_entries_map_push(s: Seq<LinkEntry>, e: LinkEntry)
    ensures
        entries_map(s.push(e)) == entries_map(s).insert(e.actor_id@, e.client),
{
    assert(s.push(e).drop_last() =~= s);
    assert(s.push(e).last() == e);
}

/// The concurrently shared mapping from actor identifier to connection
/// handle. At most one entry exists per actor; entries are added by link-up
/// handling and removed by link-down or shutdown handling.
pub struct LinkRegistry {
    entries: Vec<LinkEntry>,
}

impl View for LinkRegistry {
    type V = Map<Seq<char>, aws_sdk_sqs::Client>;

    closed spec fn view(&self) -> Map<Seq<char>, aws_sdk_sqs::Client> {
        entries_map(self.entries@)
    }
}

impl LinkRegistry {
    /// At most one entry per actor identifier.
    pub closed spec fn wf(&self) -> bool {
        distinct_actor_ids(self.entries@)
    }

    /// An empty registry.
    pub fn new() -> (r: Self)
        ensures
            r.wf(),
            r@ == Map::<Seq<char>, aws_sdk_sqs::Client>::empty(),
    {
        LinkRegistry { entries: Vec::new() }
    }

    /// The index of the entry for `actor_id`, if one exists.
    fn index_of(&self, actor_id: &String) -> (r: Option<usize>)
        ensures
            match r {
                Some(i) => i < self.entries@.len() && self.entries@[i as int].actor_id@
                    == actor_id@,
                None => forall|i: int|
                    0 <= i < self.entries@.len() ==> self.entries@[i].actor_id@ != actor_id@,
            },
    {
        let mut i: usize = 0;
        while i < self.entries.len()
            invariant
                i <= self.entries@.len(),
                forall|j: int| 0 <= j < i ==> self.entries@[j].actor_id@ != actor_id@,
            decreases self.entries@.len() - i,
        {
            if self.entries[i].actor_id == *actor_id {
                return Some(i);
            }
            i = i + 1;
        }
        None
    }

    /// A copy of the connection handle for `actor_id`, if one is linked.
    ///
    /// A missing actor is not an error at this layer: the caller decides how
    /// to surface it.
    pub fn get(&self, actor_id: &String) -> (r: Option<aws_sdk_sqs::Client>)
        requires
            self.wf(),
        ensures
            match r {
                Some(c) => self@.contains_key(actor_id@) && c == self@[actor_id@],
                None => !self@.contains_key(actor_id@),
            },
    {
        match self.index_of(actor_id) {
            Some(i) => {
                proof {
                    lemma_entries_map_at(self.entries@, i as int);
                }
                Some(self.entries[i].client.clone())
            },
            None => {
                proof {
                    lemma_entries_map_dom(self.entries@);
                }
                None
            },
        }
    }

    /// Inserts or replaces the connection for `actor_id`.
    pub fn put(&mut self, actor_id: String, client: aws_sdk_sqs::Client)
        requires
            old(self).wf(),
        ensures
            final(self).wf(),
            final(self)@ == old(self)@.insert(actor_id@, client),
            final(self)@ == apply_op(
                old(self)@,
                RegistryOp::Put { actor_id: actor_id@, client },
            ),
    {
        self.remove(&actor_id);
        let ghost removed = self.entries@;
        proof {
            lemma_entries_map_dom(removed);
            lemma_entries_map_push(removed, LinkEntry { actor_id, client });
        }
        self.entries.push(LinkEntry { actor_id, client });
        proof {
            assert forall|i: int, j: int| 0 <= i < j < self.entries@.len()
                implies self.entries@[i].actor_id@ != self.entries@[j].actor_id@ by {
                if j == self.entries@.len() - 1 {
                    assert(!entries_map(removed).contains_key(self.entries@[j].actor_id@));
                }
            }
            assert(self@ =~= old(self)@.insert(actor_id@, client));
        }
    }

    /// Removes the entry for `actor_id` if one exists; reports whether one
    /// existed.
    pub fn remove(&mut self, actor_id: &String) -> (r: bool)
        requires
            old(self).wf(),
        ensures
            final(self).wf(),
            final(self)@ == old(self)@.remove(actor_id@),
            final(self)@ == apply_op(old(self)@, RegistryOp::Remove { actor_id: actor_id@ }),
            r == old(self)@.contains_key(actor_id@),
    {
        match self.index_of(actor_id) {
            Some(i) => {
                proof {
                    lemma_entries_map_at(self.entries@, i as int);
                    lemma_entries_map_remove(self.entries@, i as int);
                    lemma_distinct_remove(self.entries@, i as int);
                }
                self.entries.remove(i);
                true
            },
            None => {
                proof {
                    lemma_entries_map_dom(self.entries@);
                    assert(entries_map(self.entries@).remove(actor_id@) =~= entries_map(
                        self.entries@,
                    ));
                }
                false
            },
        }
    }

    /// Removes all entries; used at shutdown.
    pub fn clear(&mut self)
        ensures
            final(self).wf(),
            final(self)@ == Map::<Seq<char>, aws_sdk_sqs::Client>::empty(),
    {
        self.entries.clear();
    }
}

/// One write against the registry: what a single `put` or `remove` does to
/// the mapping.
pub enum RegistryOp {
    Put { actor_id: Seq<char>, client: aws_sdk_sqs::Client },
    Remove { actor_id: Seq<char> },
}

/// The actor identifier a write names.
pub open spec fn op_actor_id(op: RegistryOp) -> Seq<char> {
    match op {
        RegistryOp::Put { actor_id, .. } => actor_id,
        RegistryOp::Remove { actor_id } => actor_id,
    }
}

/// The mapping after one write.
pub open spec fn apply_op(
    m: Map<Seq<char>, aws_sdk_sqs::Client>,
    op: RegistryOp,
) -> Map<Seq<char>, aws_sdk_sqs::Client> {
    match op {
        RegistryOp::Put { actor_id, client } => m.insert(actor_id, client),
        RegistryOp::Remove { actor_id } => m.remove(actor_id),
    }
}

/// The mapping after a sequence of writes, applied in order.
pub open spec fn apply_ops(
    m: Map<Seq<char>, aws_sdk_sqs::Client>,
    ops: Seq<RegistryOp>,
) -> Map<Seq<char>, aws_sdk_sqs::Client>
    decreases ops.len(),
{
    if ops.len() == 0 {
        m
    } else {
        apply_op(apply_ops(m, ops.drop_last()), ops.last())
    }
}

/// Registry exclusivity, first half: in any serialization of writes, an
/// actor's final registry state is decided by the last write that names that
/// actor — writes to other actors cannot overwrite or lose it.
pub proof fn lemma_last_write_wins(
    m: Map<Seq<char>, aws_sdk_sqs::Client>,
    ops: Seq<RegistryOp>,
    i: int,
)
    requires
        0 <= i < ops.len(),
        forall|j: int| i < j < ops.len() ==> op_actor_id(ops[j]) != op_actor_id(ops[i]),
    ensures
        match ops[i] {
            RegistryOp::Put { actor_id, client } => apply_ops(m, ops).contains_key(actor_id)
                && apply_ops(m, ops)[actor_id] == client,
            RegistryOp::Remove { actor_id } => !apply_ops(m, ops).contains_key(actor_id),
        },
    decreases ops.len(),
{
    if i < ops.len() - 1 {
        assert(ops.drop_last()[i] == ops[i]);
        lemma_last_write_wins(m, ops.drop_last(), i);
        assert(op_actor_id(ops.last()) != op_actor_id(ops[i]));
    }
}

/// Registry exclusivity, second half: writes that never name an actor leave
/// that actor's registry state exactly as it was.
pub proof fn lemma_unwritten_actor_unchanged(
    m: Map<Seq<char>, aws_sdk_sqs::Client>,
    ops: Seq<RegistryOp>,
    actor_id: Seq<char>,
)
    requires
        forall|j: int| 0 <= j < ops.len() ==> op_actor_id(ops[j]) != actor_id,
    ensures
        apply_ops(m, ops).contains_key(actor_id) == m.contains_key(actor_id),
        m.contains_key(actor_id) ==> apply_ops(m, ops)[actor_id] == m[actor_id],
    decreases ops.len(),
{
    if ops.len() > 0 {
        lemma_unwritten_actor_unchanged(m, ops.drop_last(), actor_id);
        assert(op_actor_id(ops.last()) != actor_id);
    }
}

} // verus!
