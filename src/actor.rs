use crate::data::{Ticket, TicketDraft, TicketId};
use crate::store::{added, lookup, TicketStore};
use std::sync::mpsc::{Receiver, SyncSender, TrySendError};
use vstd::prelude::*;

verus! {

#[verifier::external_type_specification]
#[verifier::external_body]
#[verifier::reject_recursive_types(T)]
pub struct ExSyncSender<T>(SyncSender<T>);

#[verifier::external_type_specification]
#[verifier::external_body]
#[verifier::reject_recursive_types(T)]
pub struct ExReceiver<T>(Receiver<T>);

/// Relies on SyncSender's Clone: another handle on the same channel.
pub assume_specification<T>[ <SyncSender<T> as Clone>::clone ](s: &SyncSender<T>) -> SyncSender<T>;

/// A request to the worker that owns the store, with the channel on which
/// its single answer goes back.
pub enum Command {
    Insert { draft: TicketDraft, response_channel: SyncSender<TicketId> },
    Get { id: TicketId, response_channel: SyncSender<Option<Ticket>> },
}

/// The insertion of `draft`, to be answered on `reply`.
pub fn insert_command(draft: TicketDraft, reply: SyncSender<TicketId>) -> (c: Command)
    ensures
        c == (Command::Insert { draft, response_channel: reply }),
{
    Command::Insert { draft, response_channel: reply }
}

/// The lookup of `id`, to be answered on `reply`.
pub fn get_command(id: TicketId, reply: SyncSender<Option<Ticket>>) -> (c: Command)
    ensures
        c == (Command::Get { id, response_channel: reply }),
{
    Command::Get { id, response_channel: reply }
}

/// Why a client request did not get an answer.
#[derive(Clone, Copy, Debug, PartialEq, Eq, Structural)]
pub enum StoreError {
    /// The mailbox was at capacity: the request was not queued.
    MailboxFull,
    /// The worker is gone: the request cannot be or was not answered.
    WorkerUnavailable,
}

/// What became of an attempt to put a command in the mailbox.
#[derive(Clone, Copy, Debug, PartialEq, Eq, Structural)]
pub enum Submission {
    Queued,
    Full,
    Closed,
}

/// Relies on std::sync::mpsc::sync_channel: a fresh channel that holds at
/// most one message, for the one answer to a request.
#[verifier::external_body]
fn reply_channel<T>() -> (SyncSender<T>, Receiver<T>) {
    std::sync::mpsc::sync_channel(1)
}

/// Relies on SyncSender::try_send: it never blocks, and tells a full
/// channel apart from one whose receiver is gone.
#[verifier::external_body]
fn try_submit(sender: &SyncSender<Command>, command: Command) -> (r: Submission) {
    match sender.try_send(command) {
        Ok(()) => Submission::Queued,
        Err(TrySendError::Full(_)) => Submission::Full,
        Err(TrySendError::Disconnected(_)) => Submission::Closed,
    }
}

/// Relies on Receiver::recv: it waits for the one answer, and fails once
/// the sending side is gone without having sent it.
#[verifier::external_body]
fn await_reply<T>(receiver: Receiver<T>) -> (r: Option<T>) {
    receiver.recv().ok()
}

/// Relies on SyncSender::try_send: the answer is put on the reply channel;
/// when the requester has gone away the answer is dropped.
#[verifier::external_body]
fn send_reply<T>(channel: SyncSender<T>, value: T) {
    let _ = channel.try_send(value);
}

/// The result a client reports for a request, from what became of its
/// submission and the answer that came back, if any.
pub open spec fn settled<T>(sent: Submission, reply: Option<T>) -> Result<T, StoreError> {
    match sent {
        Submission::Queued => match reply {
            Some(v) => Ok(v),
            None => Err(StoreError::WorkerUnavailable),
        },
        Submission::Full => Err(StoreError::MailboxFull),
        Submission::Closed => Err(StoreError::WorkerUnavailable),
    }
}

/// Turns what became of a submission and its answer into the client's
/// result: a full mailbox is `MailboxFull`, a closed mailbox or a missing
/// answer is `WorkerUnavailable`.
pub fn settle<T>(sent: Submission, reply: Option<T>) -> (r: Result<T, StoreError>)
    ensures
        r == settled(sent, reply),
{
    match sent {
        Submission::Queued => match reply {
            Some(v) => Ok(v),
            None => Err(StoreError::WorkerUnavailable),
        },
        Submission::Full => Err(StoreError::MailboxFull),
        Submission::Closed => Err(StoreError::WorkerUnavailable),
    }
}

/// A handle on the worker's mailbox. Clones share the mailbox, whose bounded
/// capacity is all they share.
#[derive(Clone)]
pub struct TicketStoreClient {
    sender: SyncSender<Command>,
}

impl TicketStoreClient {
    /// A client that submits to the mailbox `sender` feeds.
    pub fn new(sender: SyncSender<Command>) -> (c: TicketStoreClient)
        ensures
            c.sender() == sender,
    {
        TicketStoreClient { sender }
    }

    pub closed spec fn sender(&self) -> SyncSender<Command> {
        self.sender
    }

    /// Queues an insertion without waiting: the receiver on which its id
    /// will come, or `MailboxFull` / `WorkerUnavailable` when the mailbox is
    /// at capacity / closed.
    pub fn submit_insert(&self, draft: TicketDraft) -> (r: Result<Receiver<TicketId>, StoreError>)
        ensures
            r is Err ==> r == Err::<Receiver<TicketId>, StoreError>(StoreError::MailboxFull) || r == Err::<
                Receiver<TicketId>,
                StoreError,
            >(StoreError::WorkerUnavailable),
    {
        let (tx, rx) = reply_channel();
        let sent = try_submit(&self.sender, insert_command(draft, tx));
        match sent {
            Submission::Queued => Ok(rx),
            _ => settle(sent, None),
        }
    }

    /// Queues a lookup without waiting: the receiver on which its answer
    /// will come, or `MailboxFull` / `WorkerUnavailable` when the mailbox is
    /// at capacity / closed.
    pub fn submit_get(&self, id: TicketId) -> (r: Result<Receiver<Option<Ticket>>, StoreError>)
        ensures
            r is Err ==> r == Err::<Receiver<Option<Ticket>>, StoreError>(StoreError::MailboxFull)
                || r == Err::<Receiver<Option<Ticket>>, StoreError>(StoreError::WorkerUnavailable),
    {
        let (tx, rx) = reply_channel();
        let sent = try_submit(&self.sender, get_command(id, tx));
        match sent {
            Submission::Queued => Ok(rx),
            _ => settle(sent, None),
        }
    }

    /// Submits an insertion and waits for the id that the worker assigns.
    /// Fails at once with `MailboxFull` when the mailbox is at capacity, and
    /// with `WorkerUnavailable` when no worker answers.
    pub fn insert(&self, draft: TicketDraft) -> (r: Result<TicketId, StoreError>)
        ensures
            r is Err ==> r == Err::<TicketId, StoreError>(StoreError::MailboxFull) || r == Err::<
                TicketId,
                StoreError,
            >(StoreError::WorkerUnavailable),
    {
        let (tx, rx) = reply_channel();
        let sent = try_submit(&self.sender, insert_command(draft, tx));
        let reply = match sent {
            Submission::Queued => await_reply(rx),
            _ => None,
        };
        settle(sent, reply)
    }

    /// Submits a lookup and waits for the worker's answer: the ticket, or
    /// `None` when no ticket has that id. Fails as `insert` does.
    pub fn get(&self, id: TicketId) -> (r: Result<Option<Ticket>, StoreError>)
        ensures
            r is Err ==> r == Err::<Option<Ticket>, StoreError>(StoreError::MailboxFull) || r == Err::<
                Option<Ticket>,
                StoreError,
            >(StoreError::WorkerUnavailable),
    {
        let (tx, rx) = reply_channel();
        let sent = try_submit(&self.sender, get_command(id, tx));
        let reply = match sent {
            Submission::Queued => await_reply(rx),
            _ => None,
        };
        settle(sent, reply)
    }
}

/// What a command asks of the store, without its reply channel.
pub enum Request {
    Insert(TicketDraft),
    Get(TicketId),
}

/// What the worker sends back for a request: the new ticket's id, the
/// ticket looked up (or `None`), or nothing once the id space is used up.
#[derive(Clone, Debug, PartialEq, Eq)]
pub enum Answer {
    Id(TicketId),
    Found(Option<Ticket>),
    Unanswered,
}

/// The request that `command` carries.
pub open spec fn request_of(command: Command) -> Request {
    match command {
        Command::Insert { draft, .. } => Request::Insert(draft),
        Command::Get { id, .. } => Request::Get(id),
    }
}

/// The store after `request` is carried out on `s`: an insertion adds one
/// ticket (unless the id space is used up), a lookup changes nothing.
pub open spec fn after_request(s: Seq<Ticket>, request: Request) -> Seq<Ticket> {
    match request {
        Request::Insert(draft) => if s.len() < u64::MAX {
            added(s, draft)
        } else {
            s
        },
        Request::Get(_) => s,
    }
}

/// The answer to `request` on the store `s`: the next id for an insertion,
/// the ticket with that id (if any) for a lookup.
pub open spec fn answer_of(s: Seq<Ticket>, request: Request) -> Answer {
    match request {
        Request::Insert(_) => if s.len() < u64::MAX {
            Answer::Id(TicketId(s.len() as u64))
        } else {
            Answer::Unanswered
        },
        Request::Get(id) => Answer::Found(lookup(s, id)),
    }
}

/// Carries out `request` on the store and returns its answer.
pub fn answer(store: &mut TicketStore, request: Request) -> (a: Answer)
    requires
        old(store).wf(),
    ensures
        final(store).wf(),
        a == answer_of(old(store)@, request),
        final(store)@ == after_request(old(store)@, request),
{
    match request {
        Request::Insert(draft) => {
            if (store.len() as u64) < u64::MAX {
                Answer::Id(store.add_ticket(draft))
            } else {
                Answer::Unanswered
            }
        },
        Request::Get(id) => Answer::Found(store.get(id)),
    }
}

/// One step of the worker: carries out `command` on the store it owns and
/// sends `answer_of` the store and the command's request on the command's
/// reply channel. A reply that cannot be delivered is dropped. Once the id
/// space is used up an insertion is left unanswered, which its requester
/// sees as an absent worker.
pub fn serve_command(store: &mut TicketStore, command: Command)
    requires
        old(store).wf(),
    ensures
        final(store).wf(),
        final(store)@ == after_request(old(store)@, request_of(command)),
{
    match command {
        Command::Insert { draft, response_channel } => {
            match answer(store, Request::Insert(draft)) {
                Answer::Id(id) => send_reply(response_channel, id),
                _ => {},
            }
        },
        Command::Get { id, response_channel } => {
            match answer(store, Request::Get(id)) {
                Answer::Found(ticket) => send_reply(response_channel, ticket),
                _ => {},
            }
        },
    }
}

} // verus!
