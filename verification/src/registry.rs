//! The type-indexed subscriber registry.
//!
//! A [`MessageBox`] maps an event-type tag to the ordered list of subscriber
//! handles registered for that tag.  Insertion order within one tag is the
//! delivery order; there is no ordering guarantee across different tags.
//! The registry records its own (ghost) operation history, and its state is
//! proved to be exactly the replay of that history.

use vstd::prelude::*;

verus! {

/// An opaque, comparable, non-owning capability to deliver events to one
/// subscriber.  The surrounding runtime decides what a handle's identifier
/// actually addresses; the registry only stores and compares handles.
#[derive(Debug, Clone, Copy, PartialEq, Eq, Structural, Hash)]
pub struct Handle {
    pub id: u64,
}

/// A single registry operation, as recorded in a registry's history.
#[derive(Debug, Clone, Copy, PartialEq, Eq, Structural)]
pub enum RegistryOp {
    Register { tag: u64, recipient: Handle },
    Unregister { tag: u64, recipient: Handle },
}

/// An event type that subscribers can register interest in, distinguished by
/// a static tag rather than by a string name.  Implementing this trait is
/// what admits a message type to the registry's type-parameterized interface.
pub trait EventType {
    /// The static tag that stands for this event type in the registry.
    spec fn spec_tag() -> u64;

    /// The executable counterpart of [`EventType::spec_tag`].
    fn tag() -> (t: u64)
        ensures
            t == Self::spec_tag(),
    ;
}

/// The subscribers registered for `tag` in `m`: the empty sequence when the
/// tag has never been registered for.
pub open spec fn recipients_in(m: Map<u64, Seq<Handle>>, tag: u64) -> Seq<Handle> {
    if m.dom().contains(tag) {
        m[tag]
    } else {
        Seq::empty()
    }
}

/// The registry after appending `recipient` to `tag`'s list.
pub open spec fn register_in(m: Map<u64, Seq<Handle>>, tag: u64, recipient: Handle) -> Map<
    u64,
    Seq<Handle>,
> {
    m.insert(tag, recipients_in(m, tag).push(recipient))
}

/// `s` with the first occurrence of `r` removed, if any.
pub open spec fn remove_first(s: Seq<Handle>, r: Handle) -> Seq<Handle>
    decreases s.len(),
{
    if s.len() == 0 {
        s
    } else if s[0] == r {
        s.drop_first()
    } else {
        seq![s[0]] + remove_first(s.drop_first(), r)
    }
}

/// The registry after removing the first occurrence of `recipient` from
/// `tag`'s list; unchanged when the tag was never registered for.
pub open spec fn unregister_in(m: Map<u64, Seq<Handle>>, tag: u64, recipient: Handle) -> Map<
    u64,
    Seq<Handle>,
> {
    if m.dom().contains(tag) {
        m.insert(tag, remove_first(m[tag], recipient))
    } else {
        m
    }
}

/// One step of registry history.
pub open spec fn apply_op(m: Map<u64, Seq<Handle>>, op: RegistryOp) -> Map<u64, Seq<Handle>> {
    match op {
        RegistryOp::Register { tag, recipient } => register_in(m, tag, recipient),
        RegistryOp::Unregister { tag, recipient } => unregister_in(m, tag, recipient),
    }
}

/// The registry obtained by replaying `ops` in order, starting from empty.
pub open spec fn replay(ops: Seq<RegistryOp>) -> Map<u64, Seq<Handle>>
    decreases ops.len(),
{
    if ops.len() == 0 {
        Map::empty()
    } else {
        apply_op(replay(ops.drop_last()), ops.last())
    }
}

/// One stored registry row: the subscribers for one tag.
struct Entry {
    tag: u64,
    recipients: Vec<Handle>,
}

/// No two rows share a tag.
spec fn distinct_tags(s: Seq<Entry>) -> bool {
    forall|i: int, j: int|
        #![trigger s[i].tag, s[j].tag]
        0 <= i < j < s.len() ==> s[i].tag != s[j].tag
}

/// The map described by a sequence of rows.
spec fn entries_map(s: Seq<Entry>) -> Map<u64, Seq<Handle>>
    decreases s.len(),
{
    if s.len() == 0 {
        Map::empty()
    } else {
        entries_map(s.drop_last()).insert(s.last().tag, s.last().recipients@)
    }
}

/// A registry of subscriber handles, keyed by event-type tag.
///
/// Each tag maps to the ordered list of handles registered for it; a handle
/// may appear more than once, in which case it is delivered to once per
/// registration.  The registry never forgets a tag once it has seen it, so
/// [`MessageBox::len`] counts the event types ever registered for.
pub struct MessageBox {
    entries: Vec<Entry>,
    history: Ghost<Seq<RegistryOp>>,
}

impl MessageBox {
    /// The abstract state: tag to ordered subscriber list.
    pub closed spec fn view(&self) -> Map<u64, Seq<Handle>> {
        entries_map(self.entries@)
    }

    /// Every register/unregister ever applied to this registry, in order.
    pub closed spec fn history(&self) -> Seq<RegistryOp> {
        self.history@
    }

    /// Well-formed: the state is exactly the replay of the history.
    pub closed spec fn wf(&self) -> bool {
        &&& distinct_tags(self.entries@)
        &&& self.view() == replay(self.history@)
    }

    /// Creates an empty registry.
    pub fn new() -> (b: MessageBox)
        ensures
            b.wf(),
            b@ == Map::<u64, Seq<Handle>>::empty(),
            b.history() == Seq::<RegistryOp>::empty(),
    {
        MessageBox { entries: Vec::new(), history: Ghost(Seq::empty()) }
    }

    /// Appends `recipient` to the subscriber list for `tag`.  Always
    /// succeeds; a handle registered twice will be delivered to twice.
    #[verifier::loop_isolation(false)]
    pub fn register_tag(&mut self, tag: u64, recipient: Handle)
        requires
            old(self).wf(),
        ensures
            final(self).wf(),
            final(self)@ == register_in(old(self)@, tag, recipient),
            final(self).history() == old(self).history().push(
                RegistryOp::Register { tag, recipient },
            ),
    {
        let ghost op = RegistryOp::Register { tag, recipient };
        let ghost old_entries = old(self).entries@;
        let n = self.entries.len();
        let mut i: usize = 0;
        while i < n
            invariant
                *self == *old(self),
                i <= n,
                forall|k: int| 0 <= k < i ==> #[trigger] old_entries[k].tag != tag,
            decreases n - i,
        {
            if self.entries[i].tag == tag {
                let row = &mut self.entries[i];
                row.recipients.push(recipient);
                proof {
                    lemma_entries_map_index(old_entries, i as int);
                    lemma_entries_map_update(old_entries, i as int, self.entries@[i as int]);
                    assert(self.view() =~= register_in(entries_map(old_entries), tag, recipient));
                    lemma_replay_push(old(self).history@, op);
                }
                self.history = Ghost(self.history@.push(op));
                return ;
            }
            i += 1;
        }
        let mut fresh: Vec<Handle> = Vec::new();
        fresh.push(recipient);
        self.entries.push(Entry { tag, recipients: fresh });
        proof {
            lemma_entries_map_absent(old_entries, tag);
            assert(self.entries@.drop_last() =~= old_entries);
            assert(self.view() =~= register_in(entries_map(old_entries), tag, recipient));
            lemma_replay_push(old(self).history@, op);
        }
        self.history = Ghost(self.history@.push(op));
    }

    /// Removes the first handle equal to `recipient` from `tag`'s list, if
    /// present; a no-op (not an error) when the handle or tag is absent.
    #[verifier::loop_isolation(false)]
    pub fn unregister_tag(&mut self, tag: u64, recipient: Handle)
        requires
            old(self).wf(),
        ensures
            final(self).wf(),
            final(self)@ == unregister_in(old(self)@, tag, recipient),
            final(self).history() == old(self).history().push(
                RegistryOp::Unregister { tag, recipient },
            ),
    {
        let ghost op = RegistryOp::Unregister { tag, recipient };
        let ghost old_entries = old(self).entries@;
        let n = self.entries.len();
        let mut i: usize = 0;
        while i < n
            invariant
                *self == *old(self),
                i <= n,
                forall|k: int| 0 <= k < i ==> #[trigger] old_entries[k].tag != tag,
            decreases n - i,
        {
            if self.entries[i].tag == tag {
                proof {
                    lemma_entries_map_index(old_entries, i as int);
                }
                let ghost old_list = self.entries@[i as int].recipients@;
                let m = self.entries[i].recipients.len();
                let mut j: usize = 0;
                while j < m
                    invariant
                        *self == *old(self),
                        i < n,
                        old_entries[i as int].tag == tag,
                        old_list == old_entries[i as int].recipients@,
                        m == old_list.len(),
                        j <= m,
                        forall|k: int| 0 <= k < j ==> #[trigger] old_list[k] != recipient,
                    decreases m - j,
                {
                    if self.entries[i].recipients[j] == recipient {
                        let row = &mut self.entries[i];
                        row.recipients.remove(j);
                        proof {
                            lemma_remove_first_at(old_list, j as int, recipient);
                            lemma_entries_map_update(
                                old_entries,
                                i as int,
                                self.entries@[i as int],
                            );
                            assert(self.view() =~= unregister_in(
                                entries_map(old_entries),
                                tag,
                                recipient,
                            ));
                            lemma_replay_push(old(self).history@, op);
                        }
                        self.history = Ghost(self.history@.push(op));
                        return ;
                    }
                    j += 1;
                }
                proof {
                    lemma_remove_first_absent(old_list, recipient);
                    assert(entries_map(old_entries).insert(tag, old_list) =~= entries_map(
                        old_entries,
                    ));
                    assert(self.view() =~= unregister_in(entries_map(old_entries), tag, recipient));
                    lemma_replay_push(old(self).history@, op);
                }
                self.history = Ghost(self.history@.push(op));
                return ;
            }
            i += 1;
        }
        proof {
            lemma_entries_map_absent(old_entries, tag);
            lemma_replay_push(old(self).history@, op);
        }
        self.history = Ghost(self.history@.push(op));
    }

    /// Appends `recipient` to the subscriber list for the event type `M`.
    pub fn register<M: EventType>(&mut self, recipient: Handle)
        requires
            old(self).wf(),
        ensures
            final(self).wf(),
            final(self)@ == register_in(old(self)@, M::spec_tag(), recipient),
            final(self).history() == old(self).history().push(
                RegistryOp::Register { tag: M::spec_tag(), recipient },
            ),
    {
        let t = M::tag();
        self.register_tag(t, recipient);
    }

    /// Removes the first occurrence of `recipient` from the subscriber list
    /// for the event type `M`, if present.
    pub fn unregister<M: EventType>(&mut self, recipient: Handle)
        requires
            old(self).wf(),
        ensures
            final(self).wf(),
            final(self)@ == unregister_in(old(self)@, M::spec_tag(), recipient),
            final(self).history() == old(self).history().push(
                RegistryOp::Unregister { tag: M::spec_tag(), recipient },
            ),
    {
        let t = M::tag();
        self.unregister_tag(t, recipient);
    }

    /// The dispatch plan for `tag`: every currently registered handle, in
    /// registration order.  Empty when nobody is registered.
    #[verifier::loop_isolation(false)]
    pub fn recipients_tag(&self, tag: u64) -> (r: Vec<Handle>)
        requires
            self.wf(),
        ensures
            r@ == recipients_in(self@, tag),
    {
        let n = self.entries.len();
        let mut i: usize = 0;
        while i < n
            invariant
                i <= n,
                forall|k: int| 0 <= k < i ==> #[trigger] self.entries@[k].tag != tag,
            decreases n - i,
        {
            if self.entries[i].tag == tag {
                proof {
                    lemma_entries_map_index(self.entries@, i as int);
                }
                let src = &self.entries[i].recipients;
                let m = src.len();
                let mut out: Vec<Handle> = Vec::new();
                let mut j: usize = 0;
                while j < m
                    invariant
                        j <= m,
                        out@ == src@.subrange(0, j as int),
                    decreases m - j,
                {
                    out.push(src[j]);
                    proof {
                        assert(out@ =~= src@.subrange(0, j as int + 1));
                    }
                    j += 1;
                }
                proof {
                    assert(out@ =~= src@);
                }
                return out;
            }
            i += 1;
        }
        proof {
            lemma_entries_map_absent(self.entries@, tag);
        }
        Vec::new()
    }

    /// The dispatch plan for the event type `M`.
    pub fn recipients<M: EventType>(&self) -> (r: Vec<Handle>)
        requires
            self.wf(),
        ensures
            r@ == recipients_in(self@, M::spec_tag()),
    {
        let t = M::tag();
        self.recipients_tag(t)
    }

    /// How many distinct event types have ever been registered for.
    pub fn len(&self) -> (n: usize)
        requires
            self.wf(),
        ensures
            n == self@.dom().len(),
    {
        proof {
            lemma_entries_map_dom_len(self.entries@);
        }
        self.entries.len()
    }

    /// Whether no event type has ever been registered for.
    pub fn is_empty(&self) -> (e: bool)
        requires
            self.wf(),
        ensures
            e <==> self@.dom().len() == 0,
    {
        proof {
            lemma_entries_map_dom_len(self.entries@);
        }
        self.entries.is_empty()
    }
}

impl Default for MessageBox {
    /// Creates an empty registry.
    fn default() -> (b: MessageBox)
        ensures
            b.wf(),
            b@ == Map::<u64, Seq<Handle>>::empty(),
            b.history() == Seq::<RegistryOp>::empty(),
    {
        MessageBox::new()
    }
}

/// The registry state is a pure function of its operation history: whatever
/// interleaving of register and unregister calls produced a well-formed
/// registry, its state equals the replay, in order, of exactly those calls.
pub proof fn lemma_state_is_replay_of_history(b: &MessageBox)
    requires
        b.wf(),
    ensures
        b@ == replay(b.history()),
{
}

/// Unregistering a handle that is not currently registered for `tag` leaves
/// the registry unchanged (and, being total, cannot error).
pub proof fn lemma_unregister_absent_is_noop(m: Map<u64, Seq<Handle>>, tag: u64, recipient: Handle)
    requires
        !recipients_in(m, tag).contains(recipient),
    ensures
        unregister_in(m, tag, recipient) == m,
{
    if m.dom().contains(tag) {
        assert(forall|k: int| 0 <= k < m[tag].len() ==> #[trigger] m[tag][k] != recipient);
        lemma_remove_first_absent(m[tag], recipient);
        assert(unregister_in(m, tag, recipient) =~= m);
    }
}

/// Replay unfolds one step at a time.
proof fn lemma_replay_push(ops: Seq<RegistryOp>, op: RegistryOp)
    ensures
        replay(ops.push(op)) == apply_op(replay(ops), op),
{
    assert(ops.push(op).drop_last() =~= ops);
    assert(ops.push(op).last() == op);
}

/// A row's tag is bound to that row's list.
proof fn lemma_entries_map_index(s: Seq<Entry>, i: int)
    requires
        distinct_tags(s),
        0 <= i < s.len(),
    ensures
        entries_map(s).dom().contains(s[i].tag),
        entries_map(s)[s[i].tag] == s[i].recipients@,
    decreases s.len(),
{
    if i < s.len() - 1 {
        lemma_entries_map_index(s.drop_last(), i);
    }
}

/// A tag on no row is not in the map.
proof fn lemma_entries_map_absent(s: Seq<Entry>, tag: u64)
    requires
        forall|k: int| 0 <= k < s.len() ==> #[trigger] s[k].tag != tag,
    ensures
        !entries_map(s).dom().contains(tag),
    decreases s.len(),
{
    if s.len() > 0 {
        lemma_entries_map_absent(s.drop_last(), tag);
    }
}

/// Replacing the row that holds a tag updates exactly that tag's binding.
proof fn lemma_entries_map_update(s: Seq<Entry>, i: int, e: Entry)
    requires
        distinct_tags(s),
        0 <= i < s.len(),
        s[i].tag == e.tag,
    ensures
        entries_map(s.update(i, e)) == entries_map(s).insert(e.tag, e.recipients@),
        distinct_tags(s.update(i, e)),
    decreases s.len(),
{
    let t = s.update(i, e);
    if i == s.len() - 1 {
        assert(t.drop_last() =~= s.drop_last());
        assert(entries_map(t) =~= entries_map(s).insert(e.tag, e.recipients@));
    } else {
        assert(t.drop_last() =~= s.drop_last().update(i, e));
        lemma_entries_map_update(s.drop_last(), i, e);
        assert(s.last().tag != e.tag);
        assert(entries_map(t) =~= entries_map(s).insert(e.tag, e.recipients@));
    }
}

/// One tag per row means one row per map key.
proof fn lemma_entries_map_dom_len(s: Seq<Entry>)
    requires
        distinct_tags(s),
    ensures
        entries_map(s).dom().finite(),
        entries_map(s).dom().len() == s.len(),
    decreases s.len(),
{
    if s.len() > 0 {
        lemma_entries_map_dom_len(s.drop_last());
        assert(forall|k: int|
            0 <= k < s.drop_last().len() ==> #[trigger] s.drop_last()[k].tag != s.last().tag);
        lemma_entries_map_absent(s.drop_last(), s.last().tag);
        vstd::set::axiom_set_insert_len(entries_map(s.drop_last()).dom(), s.last().tag);
        assert(entries_map(s).dom() =~= entries_map(s.drop_last()).dom().insert(s.last().tag));
    }
}

/// Removing the first occurrence of `r`, found at position `j`, is the same
/// as removing position `j`.
proof fn lemma_remove_first_at(s: Seq<Handle>, j: int, r: Handle)
    requires
        0 <= j < s.len(),
        s[j] == r,
        forall|k: int| 0 <= k < j ==> #[trigger] s[k] != r,
    ensures
        remove_first(s, r) == s.remove(j),
    decreases j,
{
    if j == 0 {
        assert(remove_first(s, r) =~= s.remove(0));
    } else {
        lemma_remove_first_at(s.drop_first(), j - 1, r);
        assert(remove_first(s, r) =~= s.remove(j));
    }
}

/// Removing a handle that never occurs changes nothing.
proof fn lemma_remove_first_absent(s: Seq<Handle>, r: Handle)
    requires
        forall|k: int| 0 <= k < s.len() ==> #[trigger] s[k] != r,
    ensures
        remove_first(s, r) == s,
    decreases s.len(),
{
    if s.len() > 0 {
        lemma_remove_first_absent(s.drop_first(), r);
        assert(remove_first(s, r) =~= s);
    }
}

} // verus!
