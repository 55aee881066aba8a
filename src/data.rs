use vstd::prelude::*;

verus! {

/// Identifier of a ticket, assigned by the store in increasing order from 0.
#[derive(Clone, Copy, Debug, PartialEq, Eq, Structural, Hash, PartialOrd, Ord)]
pub struct TicketId(pub u64);

/// Workflow state of a ticket. Any status may follow any other.
#[derive(Clone, Copy, Debug, PartialEq, Eq, Structural)]
pub enum Status {
    ToDo,
    InProgress,
    Done,
}

/// Input to ticket creation: carries neither an id nor a status.
#[derive(Clone, Debug, PartialEq, Eq)]
pub struct TicketDraft {
    pub title: String,
    pub description: String,
}

/// A stored ticket. Its `id` never changes after creation.
#[derive(Clone, Debug, PartialEq, Eq)]
pub struct Ticket {
    pub id: TicketId,
    pub title: String,
    pub description: String,
    pub status: Status,
}

/// A partial update: each present field replaces the ticket's field, each
/// absent one leaves it as it was.
#[derive(Clone, Debug, PartialEq, Eq)]
pub struct TicketPatch {
    pub id: TicketId,
    pub title: Option<String>,
    pub description: Option<String>,
    pub status: Option<Status>,
}

/// The ticket that `draft` becomes when it is given the id `id`.
pub open spec fn new_ticket(id: TicketId, draft: TicketDraft) -> Ticket {
    Ticket { id, title: draft.title, description: draft.description, status: Status::ToDo }
}

/// `t` with every field that `p` holds replaced; the id is kept.
pub open spec fn patched(t: Ticket, p: TicketPatch) -> Ticket {
    Ticket {
        id: t.id,
        title: match p.title {
            Some(x) => x,
            None => t.title,
        },
        description: match p.description {
            Some(x) => x,
            None => t.description,
        },
        status: match p.status {
            Some(x) => x,
            None => t.status,
        },
    }
}

/// A field-by-field copy of `t`.
pub fn copy_ticket(t: &Ticket) -> (r: Ticket)
    ensures
        r == *t,
{
    Ticket {
        id: t.id,
        title: t.title.clone(),
        description: t.description.clone(),
        status: t.status,
    }
}

/// Builds the ticket with id `id` from `draft`, in status `ToDo`.
pub fn make_ticket(id: TicketId, draft: TicketDraft) -> (r: Ticket)
    ensures
        r == new_ticket(id, draft),
{
    Ticket { id, title: draft.title, description: draft.description, status: Status::ToDo }
}

/// Applies `p` to `t`, leaving the fields that `p` does not hold untouched.
pub fn apply_patch(t: Ticket, p: TicketPatch) -> (r: Ticket)
    ensures
        r == patched(t, p),
{
    let mut r = t;
    if let Some(title) = p.title {
        r.title = title;
    }
    if let Some(description) = p.description {
        r.description = description;
    }
    if let Some(status) = p.status {
        r.status = status;
    }
    r
}

/// A patch that holds no field leaves every ticket as it was.
pub proof fn lemma_empty_patch_is_identity(t: Ticket, id: TicketId)
    ensures
        patched(t, TicketPatch { id, title: None, description: None, status: None }) == t,
{
}

/// A patch that holds only a status changes the status alone: id, title and
/// description stay as they were.
pub proof fn lemma_status_patch_changes_only_status(t: Ticket, p: TicketPatch)
    requires
        p.title is None,
        p.description is None,
        p.status is Some,
    ensures
        patched(t, p) == (Ticket { status: p.status->0, ..t }),
{
}

} // verus!
