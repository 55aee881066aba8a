use std::sync::mpsc::sync_channel;
use ticket_service::actor::{
    answer, get_command, insert_command, serve_command, settle, Answer, Command, Request, StoreError, Submission,
    TicketStoreClient,
};
use ticket_service::data::{Status, TicketDraft, TicketId};
use ticket_service::store::TicketStore;

fn draft(title: &str) -> TicketDraft {
    TicketDraft { title: title.to_string(), description: "description".to_string() }
}

#[test]
fn full_mailbox_rejects_then_frees_one_slot() {
    let capacity = 3;
    let (sender, mailbox) = sync_channel::<Command>(capacity);
    let client = TicketStoreClient::new(sender);
    let mut pending = Vec::new();
    let mut rejected = 0;
    for k in 0..capacity + 1 {
        match client.submit_insert(draft(&format!("t{k}"))) {
            Ok(rx) => pending.push(rx),
            Err(e) => {
                assert_eq!(e, StoreError::MailboxFull);
                rejected += 1;
            }
        }
    }
    assert_eq!(pending.len(), capacity);
    assert_eq!(rejected, 1);

    let mut store = TicketStore::new();
    let first = mailbox.try_recv().unwrap();
    serve_command(&mut store, first);
    assert_eq!(pending[0].recv().unwrap(), TicketId(0));

    assert!(client.submit_insert(draft("again")).is_ok());
    assert_eq!(client.submit_insert(draft("too many")).err(), Some(StoreError::MailboxFull));
}

#[test]
fn worker_answers_in_arrival_order() {
    let (sender, mailbox) = sync_channel::<Command>(4);
    let client = TicketStoreClient::new(sender);
    let a = client.submit_insert(draft("same")).unwrap();
    let b = client.submit_insert(draft("same")).unwrap();
    let g = client.submit_get(TicketId(1)).unwrap();
    let missing = client.submit_get(TicketId(7)).unwrap();
    let mut store = TicketStore::new();
    while let Ok(command) = mailbox.try_recv() {
        serve_command(&mut store, command);
    }
    assert_eq!(a.recv().unwrap(), TicketId(0));
    assert_eq!(b.recv().unwrap(), TicketId(1));
    let t = g.recv().unwrap().unwrap();
    assert_eq!(t.id, TicketId(1));
    assert_eq!(t.title, "same");
    assert_eq!(t.status, Status::ToDo);
    assert_eq!(missing.recv().unwrap(), None);
}

#[test]
fn unanswerable_reply_is_dropped() {
    let (sender, mailbox) = sync_channel::<Command>(2);
    let client = TicketStoreClient::new(sender);
    let gone = client.submit_insert(draft("x")).unwrap();
    drop(gone);
    let mut store = TicketStore::new();
    serve_command(&mut store, mailbox.try_recv().unwrap());
    assert_eq!(store.len(), 1);
}

#[test]
fn closed_mailbox_means_worker_unavailable() {
    let (sender, mailbox) = sync_channel::<Command>(2);
    let client = TicketStoreClient::new(sender);
    drop(mailbox);
    assert_eq!(client.insert(draft("x")), Err(StoreError::WorkerUnavailable));
    assert_eq!(client.get(TicketId(0)), Err(StoreError::WorkerUnavailable));
}

#[test]
fn full_mailbox_insert_fails_at_once() {
    let (sender, _mailbox) = sync_channel::<Command>(1);
    let client = TicketStoreClient::new(sender);
    let second = client.clone();
    assert!(client.submit_get(TicketId(0)).is_ok());
    assert_eq!(second.insert(draft("x")), Err(StoreError::MailboxFull));
    assert_eq!(second.get(TicketId(0)), Err(StoreError::MailboxFull));
}

#[test]
fn settle_maps_each_outcome() {
    assert_eq!(settle(Submission::Queued, Some(5u8)), Ok(5));
    assert_eq!(settle::<u8>(Submission::Queued, None), Err(StoreError::WorkerUnavailable));
    assert_eq!(settle(Submission::Full, Some(5u8)), Err(StoreError::MailboxFull));
    assert_eq!(settle::<u8>(Submission::Closed, None), Err(StoreError::WorkerUnavailable));
}

#[test]
fn answers_follow_the_store() {
    let mut store = TicketStore::new();
    assert_eq!(answer(&mut store, Request::Get(TicketId(0))), Answer::Found(None));
    assert_eq!(answer(&mut store, Request::Insert(draft("one"))), Answer::Id(TicketId(0)));
    assert_eq!(answer(&mut store, Request::Insert(draft("two"))), Answer::Id(TicketId(1)));
    match answer(&mut store, Request::Get(TicketId(1))) {
        Answer::Found(Some(t)) => {
            assert_eq!(t.id, TicketId(1));
            assert_eq!(t.title, "two");
            assert_eq!(t.description, "description");
        }
        other => panic!("unexpected answer {:?}", other),
    }
    assert_eq!(store.len(), 2);
}

#[test]
fn commands_carry_their_request() {
    let (tx, rx) = sync_channel::<TicketId>(1);
    match insert_command(draft("kept"), tx) {
        Command::Insert { draft, response_channel } => {
            assert_eq!(draft.title, "kept");
            assert_eq!(draft.description, "description");
            response_channel.try_send(TicketId(9)).unwrap();
            assert_eq!(rx.recv().unwrap(), TicketId(9));
        }
        Command::Get { .. } => panic!("expected an insertion"),
    }
    let (tx, _rx) = sync_channel(1);
    assert!(matches!(get_command(TicketId(4), tx), Command::Get { id: TicketId(4), .. }));
}
