use crate::data::{Ticket, TicketDraft, TicketId, TicketPatch};
use crate::shared::SharedTicketStore;
use vstd::prelude::*;
use vstd::string::StringExecFns;

verus! {

/// The outcome of one request to the ticket service.
#[derive(Clone, Debug, PartialEq, Eq)]
pub enum Reply {
    /// A ticket was created under this id.
    Created(TicketId),
    /// The ticket that was asked for.
    Found(Ticket),
    /// The ticket with this id was patched.
    Updated(TicketId),
    /// No ticket has this id.
    NotFound(TicketId),
    /// No id is left to give a new ticket.
    Exhausted,
}

/// The HTTP status code that answers `r`.
pub open spec fn status_of(r: Reply) -> u16 {
    match r {
        Reply::Created(_) => 201,
        Reply::Found(_) => 200,
        Reply::Updated(_) => 200,
        Reply::NotFound(_) => 404,
        Reply::Exhausted => 503,
    }
}

/// The character of the decimal digit `d`.
pub open spec fn digit_char(d: nat) -> char {
    seq!['0', '1', '2', '3', '4', '5', '6', '7', '8', '9'][d as int]
}

/// The decimal notation of `n`, without leading zeros.
pub open spec fn decimal(n: nat) -> Seq<char>
    decreases n,
{
    if n < 10 {
        seq![digit_char(n)]
    } else {
        decimal(n / 10) + seq![digit_char(n % 10)]
    }
}

/// The text that answers `r`: a confirmation or a complaint naming the
/// ticket's id, and nothing for a reply that carries a value.
pub open spec fn text_of(r: Reply) -> Option<Seq<char>> {
    match r {
        Reply::Updated(id) => Some("Ticket "@ + decimal(id.0 as nat) + " updated"@),
        Reply::NotFound(id) => Some("Ticket "@ + decimal(id.0 as nat) + " not found"@),
        _ => None,
    }
}

fn digit_str(d: u64) -> (r: &'static str)
    requires
        d < 10,
    ensures
        r@ == seq![digit_char(d as nat)],
{
    proof {
        reveal_strlit("0");
        reveal_strlit("1");
        reveal_strlit("2");
        reveal_strlit("3");
        reveal_strlit("4");
        reveal_strlit("5");
        reveal_strlit("6");
        reveal_strlit("7");
        reveal_strlit("8");
        reveal_strlit("9");
    }
    let r = match d {
        0 => "0",
        1 => "1",
        2 => "2",
        3 => "3",
        4 => "4",
        5 => "5",
        6 => "6",
        7 => "7",
        8 => "8",
        _ => "9",
    };
    assert(r@ =~= seq![digit_char(d as nat)]);
    r
}

/// The decimal notation of `n`.
pub fn decimal_string(n: u64) -> (r: String)
    ensures
        r@ == decimal(n as nat),
    decreases n,
{
    if n < 10 {
        digit_str(n).to_owned()
    } else {
        let mut s = decimal_string(n / 10);
        s.append(digit_str(n % 10));
        s
    }
}

impl Reply {
    /// The HTTP status code that answers this reply.
    pub fn status_code(&self) -> (c: u16)
        ensures
            c == status_of(*self),
    {
        match self {
            Reply::Created(_) => 201,
            Reply::Found(_) => 200,
            Reply::Updated(_) => 200,
            Reply::NotFound(_) => 404,
            Reply::Exhausted => 503,
        }
    }

    /// The text that answers this reply, where it is answered by text.
    pub fn text(&self) -> (t: Option<String>)
        ensures
            t matches Some(s) ==> text_of(*self) == Some(s@),
            t is None ==> text_of(*self) is None,
    {
        let (id, tail): (TicketId, &str) = match self {
            Reply::Updated(id) => (*id, " updated"),
            Reply::NotFound(id) => (*id, " not found"),
            _ => {
                return None;
            },
        };
        proof {
            reveal_strlit("Ticket ");
            reveal_strlit(" updated");
            reveal_strlit(" not found");
        }
        let mut s = "Ticket ".to_owned();
        s.append(decimal_string(id.0).as_str());
        s.append(tail);
        Some(s)
    }
}

/// The reply to a creation that was given `id`, or `Exhausted` without one.
pub fn created_reply(id: Option<TicketId>) -> (r: Reply)
    ensures
        r == (match id {
            Some(i) => Reply::Created(i),
            None => Reply::Exhausted,
        }),
{
    match id {
        Some(i) => Reply::Created(i),
        None => Reply::Exhausted,
    }
}

/// The reply to a lookup of `id` that found `ticket`.
pub fn lookup_reply(id: TicketId, ticket: Option<Ticket>) -> (r: Reply)
    ensures
        r == (match ticket {
            Some(t) => Reply::Found(t),
            None => Reply::NotFound(id),
        }),
{
    match ticket {
        Some(t) => Reply::Found(t),
        None => Reply::NotFound(id),
    }
}

/// The reply to a patch of ticket `id`, which was found or not.
pub fn patch_reply(id: TicketId, found: bool) -> (r: Reply)
    ensures
        r == (if found {
            Reply::Updated(id)
        } else {
            Reply::NotFound(id)
        }),
{
    if found {
        Reply::Updated(id)
    } else {
        Reply::NotFound(id)
    }
}

/// Creates a ticket from `draft`.
pub fn create_ticket(store: &SharedTicketStore, draft: TicketDraft) -> (r: Reply)
    ensures
        r is Created || r is Exhausted,
{
    created_reply(store.add_ticket(draft))
}

/// Looks up ticket `id`: the whole ticket as it stands, or `NotFound`.
pub fn retrieve_ticket(store: &SharedTicketStore, id: TicketId) -> (r: Reply)
    ensures
        r matches Reply::Found(t) ==> t.id == id,
        r is Found || r == Reply::NotFound(id),
{
    lookup_reply(id, store.get(id))
}

/// Patches the ticket that `patch` names: `Updated` or `NotFound`, with its id.
pub fn update_ticket(store: &SharedTicketStore, patch: TicketPatch) -> (r: Reply)
    ensures
        r == Reply::Updated(patch.id) || r == Reply::NotFound(patch.id),
{
    let id = patch.id;
    patch_reply(id, store.patch(patch))
}

} // verus!
