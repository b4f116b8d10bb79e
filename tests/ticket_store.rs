use std::sync::mpsc::sync_channel;

use ticket_store::{
    deliver, execute, get_command, insert_command, mailbox, serve, settle, Command, Operation,
    Reply, Status, Ticket, TicketDraft, TicketId, TicketStore,
};

fn draft(title: &str, description: &str) -> TicketDraft {
    TicketDraft {
        title: title.to_string(),
        description: description.to_string(),
    }
}

#[test]
fn first_insert_reads_back_through_the_server() {
    let (mailbox_sender, mailbox_receiver) = sync_channel(1);
    let mut store = TicketStore::new();

    let (reply_sender, reply_receiver) = sync_channel(1);
    mailbox_sender
        .send(Command::Insert {
            draft: draft("A", "a"),
            response_channel: reply_sender,
        })
        .unwrap();
    assert!(serve(&mut store, mailbox_receiver.recv().ok()));
    assert_eq!(reply_receiver.recv(), Ok(TicketId(1)));

    let (reply_sender, reply_receiver) = sync_channel(1);
    mailbox_sender
        .send(Command::Get {
            id: TicketId(1),
            response_channel: reply_sender,
        })
        .unwrap();
    assert!(serve(&mut store, mailbox_receiver.recv().ok()));
    assert_eq!(
        reply_receiver.recv(),
        Ok(Some(Ticket {
            id: TicketId(1),
            title: "A".to_string(),
            description: "a".to_string(),
            status: Status::ToDo,
        }))
    );

    let (reply_sender, reply_receiver) = sync_channel(1);
    mailbox_sender
        .send(Command::Get {
            id: TicketId(2),
            response_channel: reply_sender,
        })
        .unwrap();
    assert!(serve(&mut store, mailbox_receiver.recv().ok()));
    assert_eq!(reply_receiver.recv(), Ok(None));
}

#[test]
fn queued_commands_are_served_in_arrival_order() {
    let (mailbox_sender, mailbox_receiver) = sync_channel(3);
    let (first_sender, first_receiver) = sync_channel(1);
    let (second_sender, second_receiver) = sync_channel(1);
    let (read_sender, read_receiver) = sync_channel(1);
    mailbox_sender
        .send(Command::Insert {
            draft: draft("first", "one"),
            response_channel: first_sender,
        })
        .unwrap();
    mailbox_sender
        .send(Command::Insert {
            draft: draft("second", "two"),
            response_channel: second_sender,
        })
        .unwrap();
    mailbox_sender
        .send(Command::Get {
            id: TicketId(2),
            response_channel: read_sender,
        })
        .unwrap();
    drop(mailbox_sender);

    let mut store = TicketStore::new();
    let mut turns = 0;
    while serve(&mut store, mailbox_receiver.recv().ok()) {
        turns += 1;
    }
    assert_eq!(turns, 3);
    assert_eq!(first_receiver.recv(), Ok(TicketId(1)));
    assert_eq!(second_receiver.recv(), Ok(TicketId(2)));
    let read = read_receiver.recv().unwrap().unwrap();
    assert_eq!(read.title, "second");
    assert_eq!(read.description, "two");
}

#[test]
fn answer_to_a_departed_caller_is_dropped() {
    let mut store = TicketStore::new();
    let (reply_sender, reply_receiver) = sync_channel::<TicketId>(1);
    drop(reply_receiver);
    let command = Command::Insert {
        draft: draft("lost", "nobody waits"),
        response_channel: reply_sender,
    };
    assert!(serve(&mut store, Some(command)));
    assert_eq!(store.len(), 1);

    let (reply_sender, reply_receiver) = sync_channel::<Option<Ticket>>(1);
    drop(reply_receiver);
    let command = Command::Get {
        id: TicketId(1),
        response_channel: reply_sender,
    };
    assert!(serve(&mut store, Some(command)));
    assert_eq!(store.get(TicketId(1)).unwrap().title, "lost");
}

#[test]
fn server_stops_once_every_client_is_gone() {
    let (client, receiver) = mailbox(2);
    let copy = client.clone();
    drop(client);
    drop(copy);
    let mut store = TicketStore::new();
    assert!(!serve(&mut store, receiver.recv().ok()));
    assert_eq!(store.len(), 0);
}

#[test]
fn calls_fail_once_the_server_has_stopped() {
    let (client, receiver) = mailbox(1);
    drop(receiver);
    assert_eq!(
        client.insert(draft("A", "a")),
        Err("Failed to send Insert command".to_string())
    );
    assert_eq!(
        client.get(TicketId(1)),
        Err("Failed to send Get command".to_string())
    );
}

#[test]
fn mailbox_keeps_its_capacity() {
    let (client, _receiver) = mailbox(4);
    assert_eq!(client.capacity(), 4);
    assert_eq!(client.clone().capacity(), 4);
}

#[test]
fn settle_reports_each_outcome() {
    assert_eq!(settle(Operation::Insert, true, Some(TicketId(7))), Ok(TicketId(7)));
    assert_eq!(
        settle::<TicketId>(Operation::Insert, false, None),
        Err("Failed to send Insert command".to_string())
    );
    assert_eq!(
        settle::<TicketId>(Operation::Insert, true, None),
        Err("Failed to receive response for Insert".to_string())
    );
    assert_eq!(
        settle::<Option<Ticket>>(Operation::Get, false, None),
        Err("Failed to send Get command".to_string())
    );
    assert_eq!(
        settle::<Option<Ticket>>(Operation::Get, true, None),
        Err("Failed to receive response for Get".to_string())
    );
    assert_eq!(settle(Operation::Get, true, Some(None::<Ticket>)), Ok(None));
}

#[test]
fn store_round_trip() {
    let mut store = TicketStore::new();
    let id = store.add_ticket(draft("A", "a"));
    assert_eq!(id, TicketId(1));
    assert_eq!(
        store.get(id),
        Some(Ticket {
            id: TicketId(1),
            title: "A".to_string(),
            description: "a".to_string(),
            status: Status::ToDo,
        })
    );
    assert_eq!(store.get(TicketId(2)), None);
}

#[test]
fn store_accepts_empty_fields() {
    let mut store = TicketStore::new();
    let id = store.add_ticket(draft("", ""));
    let ticket = store.get(id).unwrap();
    assert_eq!(ticket.title, "");
    assert_eq!(ticket.description, "");
    assert_eq!(ticket.status, Status::ToDo);
}

#[test]
fn store_ids_are_distinct_and_increasing() {
    let mut store = TicketStore::new();
    let ids: Vec<TicketId> = (0..5)
        .map(|i| store.add_ticket(draft(&format!("t{}", i), "d")))
        .collect();
    assert_eq!(
        ids,
        vec![TicketId(1), TicketId(2), TicketId(3), TicketId(4), TicketId(5)]
    );
    for (i, id) in ids.iter().enumerate() {
        assert_eq!(store.get(*id).unwrap().title, format!("t{}", i));
    }
    assert_eq!(store.len(), 5);
    assert!(!store.is_full());
}

#[test]
fn store_never_given_ids_are_absent() {
    let mut store = TicketStore::new();
    assert_eq!(store.get(TicketId(1)), None);
    store.add_ticket(draft("A", "a"));
    store.add_ticket(draft("B", "b"));
    assert_eq!(store.get(TicketId(0)), None);
    assert_eq!(store.get(TicketId(3)), None);
    assert_eq!(store.get(TicketId(u64::MAX)), None);
}

#[test]
fn second_insert_is_invisible_before_it_happens() {
    let mut store = TicketStore::new();
    let first = store.add_ticket(draft("one", "1"));
    assert_eq!(store.get(TicketId(2)), None);
    let second = store.add_ticket(draft("two", "2"));
    assert!(first < second);
    assert_eq!(store.get(first).unwrap().title, "one");
    assert_eq!(store.get(second).unwrap().title, "two");
}

#[test]
fn execute_answers_insert_with_the_new_id() {
    let mut store = TicketStore::new();
    store.add_ticket(draft("old", "o"));
    let (reply_sender, reply_receiver) = sync_channel(1);
    match execute(&mut store, insert_command(draft("new", "n"), reply_sender)) {
        Reply::Inserted { id, response_channel } => {
            assert_eq!(id, TicketId(2));
            response_channel.send(id).unwrap();
            assert_eq!(reply_receiver.recv(), Ok(TicketId(2)));
        }
        _ => panic!("an insertion must be answered with an id"),
    }
    assert_eq!(store.get(TicketId(2)).unwrap().title, "new");
}

#[test]
fn execute_answers_get_with_the_stored_ticket_or_none() {
    let mut store = TicketStore::new();
    store.add_ticket(draft("A", "a"));
    let (reply_sender, _reply_receiver) = sync_channel(1);
    match execute(&mut store, get_command(TicketId(1), reply_sender)) {
        Reply::Found { ticket, .. } => {
            let ticket = ticket.unwrap();
            assert_eq!(ticket.id, TicketId(1));
            assert_eq!(ticket.title, "A");
            assert_eq!(ticket.description, "a");
            assert_eq!(ticket.status, Status::ToDo);
        }
        _ => panic!("a read must be answered with a lookup"),
    }
    let (reply_sender, _reply_receiver) = sync_channel(1);
    match execute(&mut store, get_command(TicketId(2), reply_sender)) {
        Reply::Found { ticket, .. } => assert_eq!(ticket, None),
        _ => panic!("a read must be answered with a lookup"),
    }
    assert_eq!(store.len(), 1);
}

#[test]
fn deliver_sends_the_answer_once() {
    let (reply_sender, reply_receiver) = sync_channel(1);
    deliver(Reply::Inserted {
        id: TicketId(9),
        response_channel: reply_sender,
    });
    assert_eq!(reply_receiver.recv(), Ok(TicketId(9)));
    assert!(reply_receiver.recv().is_err());
}

#[test]
fn commands_carry_what_they_were_built_from() {
    let (reply_sender, _insert_replies) = sync_channel(1);
    match insert_command(draft("T", "D"), reply_sender) {
        Command::Insert { draft, .. } => {
            assert_eq!(draft.title, "T");
            assert_eq!(draft.description, "D");
        }
        Command::Get { .. } => panic!("expected an insertion"),
    }
    let (reply_sender, _get_replies) = sync_channel(1);
    match get_command(TicketId(4), reply_sender) {
        Command::Get { id, .. } => assert_eq!(id, TicketId(4)),
        Command::Insert { .. } => panic!("expected a read"),
    }
}
