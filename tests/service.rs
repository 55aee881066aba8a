use ticket_service::data::{Status, Ticket, TicketDraft, TicketId, TicketPatch};
use ticket_service::service::{
    create_ticket, decimal_string, lookup_reply, patch_reply, retrieve_ticket, update_ticket, Reply,
};
use ticket_service::shared::SharedTicketStore;

fn ticket_title() -> String {
    "A title".to_string()
}

fn ticket_description() -> String {
    "A description".to_string()
}

#[test]
fn multiple_request() {
    let store = SharedTicketStore::new();
    let draft = TicketDraft { title: ticket_title(), description: ticket_description() };

    let r1 = create_ticket(&store, draft.clone());
    let r2 = create_ticket(&store, draft.clone());
    assert_eq!(r1.status_code(), 201);
    assert_eq!(r2.status_code(), 201);
    assert_eq!(r1, Reply::Created(TicketId(0)));
    assert_eq!(r2, Reply::Created(TicketId(1)));

    let g1 = retrieve_ticket(&store, TicketId(0));
    let g2 = retrieve_ticket(&store, TicketId(1));
    assert_eq!(g1.status_code(), 200);
    assert_eq!(g2.status_code(), 200);
    assert_eq!(
        g1,
        Reply::Found(Ticket { id: TicketId(0), title: ticket_title(), description: ticket_description(), status: Status::ToDo })
    );
    assert_eq!(
        g2,
        Reply::Found(Ticket { id: TicketId(1), title: ticket_title(), description: ticket_description(), status: Status::ToDo })
    );

    let patch1 = TicketPatch {
        id: TicketId(0),
        title: Some(ticket_title()),
        description: Some(ticket_description()),
        status: Some(Status::Done),
    };
    let patch2 = TicketPatch {
        id: TicketId(10),
        title: Some(ticket_title()),
        description: Some(ticket_description()),
        status: Some(Status::Done),
    };
    let u1 = update_ticket(&store, patch1);
    let u2 = update_ticket(&store, patch2);
    assert_eq!(u1.status_code(), 200);
    assert_eq!(u2.status_code(), 404);
    assert_eq!(u1.text().unwrap(), "Ticket 0 updated");
    assert_eq!(u2.text().unwrap(), "Ticket 10 not found");
}

#[test]
fn missing_ticket_is_404() {
    let store = SharedTicketStore::new();
    let r = retrieve_ticket(&store, TicketId(3));
    assert_eq!(r, Reply::NotFound(TicketId(3)));
    assert_eq!(r.status_code(), 404);
    assert_eq!(r.text().unwrap(), "Ticket 3 not found");
}

#[test]
fn decimal_rendering() {
    assert_eq!(decimal_string(0), "0");
    assert_eq!(decimal_string(7), "7");
    assert_eq!(decimal_string(10), "10");
    assert_eq!(decimal_string(1234567890), "1234567890");
    assert_eq!(decimal_string(u64::MAX), "18446744073709551615");
}

#[test]
fn reply_helpers() {
    assert_eq!(patch_reply(TicketId(4), true), Reply::Updated(TicketId(4)));
    assert_eq!(patch_reply(TicketId(4), false), Reply::NotFound(TicketId(4)));
    assert_eq!(lookup_reply(TicketId(2), None), Reply::NotFound(TicketId(2)));
    assert_eq!(Reply::Exhausted.status_code(), 503);
    assert_eq!(Reply::Exhausted.text(), None);
    assert_eq!(Reply::Created(TicketId(1)).text(), None);
}
