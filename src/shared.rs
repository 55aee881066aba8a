use crate::data::{apply_patch, copy_ticket, make_ticket, Ticket, TicketDraft, TicketId, TicketPatch};
use std::sync::Arc;
use vstd::prelude::*;
use vstd::rwlock::{RwLock, RwLockPredicate};

verus! {

/// What every value behind a record's lock satisfies: it keeps the id under
/// which the record was filed.
pub struct KeepsId {
    pub id: u64,
}

impl RwLockPredicate<Ticket> for KeepsId {
    open spec fn inv(self, t: Ticket) -> bool {
        t.id.0 == self.id
    }
}

/// One ticket behind its own read/write lock, shared by the directory and by
/// whoever is reading or writing it.
pub type TicketRecord = Arc<RwLock<Ticket, KeepsId>>;

/// What the directory lock guards: record `i` holds the ticket with id `i`.
pub struct FiledById;

impl RwLockPredicate<Vec<TicketRecord>> for FiledById {
    open spec fn inv(self, v: Vec<TicketRecord>) -> bool {
        &&& v@.len() < u64::MAX
        &&& forall|i: int| 0 <= i < v@.len() ==> (#[trigger] v@[i]).pred() == KeepsId { id: i as u64 }
    }
}

/// A directory of individually locked tickets, itself behind a read/write
/// lock. The directory lock is held only to find or file a record, never
/// while a record's own lock is taken.
pub struct SharedTicketStore {
    directory: RwLock<Vec<TicketRecord>, FiledById>,
}

impl SharedTicketStore {
    #[verifier::type_invariant]
    spec fn wf(&self) -> bool {
        self.directory.pred() == FiledById
    }

    pub fn new() -> (s: SharedTicketStore)
    {
        SharedTicketStore { directory: RwLock::new(Vec::new(), Ghost(FiledById)) }
    }

    /// Files a new `ToDo` ticket built from `draft` under the next id, holding
    /// the directory's write lock, and returns that id. `None` only once the
    /// id space is used up.
    pub fn add_ticket(&self, draft: TicketDraft) -> (r: Option<TicketId>) {
        proof {
            use_type_invariant(self);
        }
        let (mut records, handle) = self.directory.acquire_write();
        let r = file_ticket(&mut records, draft);
        handle.release_write(records);
        r
    }

    /// The record filed under `id`, found under the directory's read lock,
    /// which is released before the record is returned.
    fn find(&self, id: TicketId) -> (r: Option<TicketRecord>)
        ensures
            r matches Some(rec) ==> rec.pred() == (KeepsId { id: id.0 }),
    {
        proof {
            use_type_invariant(self);
        }
        let guard = self.directory.acquire_read();
        let r = find_record(guard.borrow(), id);
        guard.release_read();
        r
    }

    /// A copy of the ticket with id `id` as it stands when its record is
    /// read, or `None` when no ticket has that id. The copy is always one
    /// whole value written by a single creation or patch.
    pub fn get(&self, id: TicketId) -> (r: Option<Ticket>)
        ensures
            r matches Some(t) ==> t.id == id,
    {
        match self.find(id) {
            Some(record) => {
                let guard = record.acquire_read();
                let t = copy_ticket(guard.borrow());
                guard.release_read();
                Some(t)
            },
            None => None,
        }
    }

    /// Applies `p` to the ticket it names under that record's write lock.
    /// Returns whether the ticket exists; when it does not, nothing changes.
    pub fn patch(&self, p: TicketPatch) -> (found: bool)
    {
        match self.find(p.id) {
            Some(record) => {
                let (current, handle) = record.acquire_write();
                let updated = apply_patch(current, p);
                handle.release_write(updated);
                true
            },
            None => false,
        }
    }
}

/// Files a new `ToDo` ticket built from `draft` at the end of `records`,
/// under the id that equals its position. Nothing is filed, and `None`
/// returned, once the id space is used up.
pub fn file_ticket(records: &mut Vec<TicketRecord>, draft: TicketDraft) -> (r: Option<TicketId>)
    requires
        FiledById.inv(*old(records)),
    ensures
        FiledById.inv(*final(records)),
        r == (if old(records)@.len() >= u64::MAX - 1 {
            None::<TicketId>
        } else {
            Some(TicketId(old(records)@.len() as u64))
        }),
        r is None ==> final(records)@ == old(records)@,
        r is Some ==> final(records)@.len() == old(records)@.len() + 1 && final(records)@.subrange(
            0,
            old(records)@.len() as int,
        ) == old(records)@,
{
    let n = records.len();
    if n as u64 >= u64::MAX - 1 {
        return None;
    }
    let ghost before = records@;
    let id = TicketId(n as u64);
    let ticket = make_ticket(id, draft);
    let record: TicketRecord = Arc::new(RwLock::new(ticket, Ghost(KeepsId { id: n as u64 })));
    records.push(record);
    proof {
        assert forall|i: int| 0 <= i < records@.len() implies (#[trigger] records@[i]).pred() == KeepsId {
            id: i as u64,
        } by {
            if i < n {
                assert(records@[i] == before[i]);
            }
        }
        assert(records@.subrange(0, n as int) =~= before);
    }
    Some(id)
}

/// The record filed under `id` in `records`, if there is one.
pub fn find_record(records: &Vec<TicketRecord>, id: TicketId) -> (r: Option<TicketRecord>)
    requires
        FiledById.inv(*records),
    ensures
        r is Some <==> (id.0 as int) < records@.len(),
        r matches Some(rec) ==> rec == records@[id.0 as int] && rec.pred() == (KeepsId { id: id.0 }),
{
    if id.0 < records.len() as u64 {
        Some(records[id.0 as usize].clone())
    } else {
        None
    }
}

} // verus!
