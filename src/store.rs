use crate::data::{apply_patch, copy_ticket, make_ticket, new_ticket, patched, Ticket, TicketDraft, TicketId, TicketPatch};
use vstd::prelude::*;

verus! {

/// The sequential owner of all tickets. Ticket `i` of the sequence has id `i`.
pub struct TicketStore {
    tickets: Vec<Ticket>,
}

/// `s` after one more ticket is created from `draft`: it gets the next id.
pub open spec fn added(s: Seq<Ticket>, draft: TicketDraft) -> Seq<Ticket> {
    s.push(new_ticket(TicketId(s.len() as u64), draft))
}

/// The tickets of a fresh store after creating one ticket per draft, in order.
pub open spec fn replay(drafts: Seq<TicketDraft>) -> Seq<Ticket>
    decreases drafts.len(),
{
    if drafts.len() == 0 {
        Seq::empty()
    } else {
        added(replay(drafts.drop_last()), drafts.last())
    }
}

/// The ticket with id `id` among `s`, if there is one.
pub open spec fn lookup(s: Seq<Ticket>, id: TicketId) -> Option<Ticket> {
    if (id.0 as int) < s.len() {
        Some(s[id.0 as int])
    } else {
        None
    }
}

/// `s` after `p` is applied; unchanged when no ticket has the patch's id.
pub open spec fn patch_all(s: Seq<Ticket>, p: TicketPatch) -> Seq<Ticket> {
    if (p.id.0 as int) < s.len() {
        s.update(p.id.0 as int, patched(s[p.id.0 as int], p))
    } else {
        s
    }
}

/// Ticket `i` has id `i`, for every position `i`.
pub open spec fn ids_are_positions(s: Seq<Ticket>) -> bool {
    forall|i: int| 0 <= i < s.len() ==> (#[trigger] s[i]).id.0 == i
}

impl View for TicketStore {
    type V = Seq<Ticket>;

    closed spec fn view(&self) -> Seq<Ticket> {
        self.tickets@
    }
}

impl TicketStore {
    pub open spec fn wf(&self) -> bool {
        ids_are_positions(self@)
    }

    pub fn new() -> (s: TicketStore)
        ensures
            s.wf(),
            s@ == Seq::<Ticket>::empty(),
    {
        TicketStore { tickets: Vec::new() }
    }

    /// How many tickets the store holds.
    pub fn len(&self) -> (n: usize)
        ensures
            n == self@.len(),
    {
        self.tickets.len()
    }

    /// Stores a new `ToDo` ticket built from `draft` under the next id and
    /// returns that id.
    pub fn add_ticket(&mut self, draft: TicketDraft) -> (id: TicketId)
        requires
            old(self).wf(),
            old(self)@.len() < u64::MAX,
        ensures
            final(self).wf(),
            id == TicketId(old(self)@.len() as u64),
            final(self)@ == added(old(self)@, draft),
    {
        let id = TicketId(self.tickets.len() as u64);
        let ticket = make_ticket(id, draft);
        self.tickets.push(ticket);
        id
    }

    /// A copy of the ticket with id `id`, or `None` when there is none.
    pub fn get(&self, id: TicketId) -> (r: Option<Ticket>)
        requires
            self.wf(),
        ensures
            r == lookup(self@, id),
    {
        if id.0 < self.tickets.len() as u64 {
            Some(copy_ticket(&self.tickets[id.0 as usize]))
        } else {
            None
        }
    }

    /// Applies `p` to the ticket it names. Returns whether that ticket exists;
    /// when it does not, nothing changes.
    pub fn patch(&mut self, p: TicketPatch) -> (found: bool)
        requires
            old(self).wf(),
        ensures
            final(self).wf(),
            found == ((p.id.0 as int) < old(self)@.len()),
            final(self)@ == patch_all(old(self)@, p),
    {
        if p.id.0 < self.tickets.len() as u64 {
            let i = p.id.0 as usize;
            let current = copy_ticket(&self.tickets[i]);
            let updated = apply_patch(current, p);
            self.tickets.set(i, updated);
            true
        } else {
            false
        }
    }
}

/// A fresh store that takes one draft after another hands out the ids
/// 0, 1, ..., N-1 in call order: the `k`-th call finds `k` tickets and so
/// returns id `k`, and ticket `k` carries the `k`-th draft.
pub proof fn lemma_ids_follow_call_order(drafts: Seq<TicketDraft>)
    requires
        drafts.len() < u64::MAX,
    ensures
        replay(drafts).len() == drafts.len(),
        ids_are_positions(replay(drafts)),
        forall|k: int| 0 <= k <= drafts.len() ==> #[trigger] replay(drafts.take(k)).len() == k,
        forall|k: int|
            0 <= k < drafts.len() ==> #[trigger] replay(drafts)[k] == new_ticket(
                TicketId(k as u64),
                drafts[k],
            ),
    decreases drafts.len(),
{
    if drafts.len() > 0 {
        let prefix = drafts.drop_last();
        lemma_ids_follow_call_order(prefix);
        assert forall|k: int| 0 <= k <= drafts.len() implies #[trigger] replay(drafts.take(k)).len() == k by {
            if k < drafts.len() {
                assert(drafts.take(k) =~= prefix.take(k));
            } else {
                assert(drafts.take(k) =~= drafts);
            }
        }
        assert forall|k: int| 0 <= k < drafts.len() implies #[trigger] replay(drafts)[k] == new_ticket(
            TicketId(k as u64),
            drafts[k],
        ) by {
            if k < prefix.len() {
                assert(prefix[k] == drafts[k]);
            }
        }
    } else {
        assert forall|k: int| 0 <= k <= drafts.len() implies #[trigger] replay(drafts.take(k)).len() == k by {
            assert(drafts.take(k) =~= drafts);
        }
    }
}

/// One call that changes a store: a creation or a patch.
pub enum StoreOp {
    Add(TicketDraft),
    Patch(TicketPatch),
}

/// The tickets of a fresh store after the calls `ops`, in order.
pub open spec fn run(ops: Seq<StoreOp>) -> Seq<Ticket>
    decreases ops.len(),
{
    if ops.len() == 0 {
        Seq::empty()
    } else {
        let s = run(ops.drop_last());
        match ops.last() {
            StoreOp::Add(draft) => added(s, draft),
            StoreOp::Patch(p) => patch_all(s, p),
        }
    }
}

/// How many creations `ops` holds.
pub open spec fn adds_in(ops: Seq<StoreOp>) -> nat
    decreases ops.len(),
{
    if ops.len() == 0 {
        0
    } else {
        adds_in(ops.drop_last()) + if ops.last() is Add {
            1nat
        } else {
            0nat
        }
    }
}

/// After any interleaving of creations and patches on a fresh store, the
/// creations have handed out exactly the ids below their number, so an id that
/// no creation returned finds no ticket.
pub proof fn lemma_unissued_id_not_found(ops: Seq<StoreOp>, id: TicketId)
    requires
        adds_in(ops) < u64::MAX,
        id.0 >= adds_in(ops),
    ensures
        run(ops).len() == adds_in(ops),
        ids_are_positions(run(ops)),
        lookup(run(ops), id) is None,
    decreases ops.len(),
{
    if ops.len() > 0 {
        let prefix = ops.drop_last();
        lemma_unissued_id_not_found(prefix, id);
    }
}

/// A patch whose only field is its id leaves every store unchanged.
pub proof fn lemma_empty_patch_keeps_store(s: Seq<Ticket>, id: TicketId)
    ensures
        patch_all(s, TicketPatch { id, title: None, description: None, status: None }) == s,
{
    if (id.0 as int) < s.len() {
        crate::data::lemma_empty_patch_is_identity(s[id.0 as int], id);
        assert(patch_all(s, TicketPatch { id, title: None, description: None, status: None }) =~= s);
    }
}

/// A status-only patch on an existing ticket changes that ticket's status and
/// nothing else in the store.
pub proof fn lemma_status_patch_keeps_other_fields(s: Seq<Ticket>, p: TicketPatch)
    requires
        (p.id.0 as int) < s.len(),
        p.title is None,
        p.description is None,
        p.status is Some,
    ensures
        patch_all(s, p) == s.update(p.id.0 as int, Ticket { status: p.status->0, ..s[p.id.0 as int] }),
{
    crate::data::lemma_status_patch_changes_only_status(s[p.id.0 as int], p);
}

} // verus!
