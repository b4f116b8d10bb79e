use vstd::prelude::*;

use std::sync::mpsc::SyncSender;

use crate::channel::submit;
use crate::data::{DraftView, Ticket, TicketDraft, TicketId, TicketView};
use crate::store::{added, full, lookup, next_id, TicketStore};

verus! {

/// A request to the server, with the channel on which its answer goes back.
pub enum Command {
    Insert { draft: TicketDraft, response_channel: SyncSender<TicketId> },
    Get { id: TicketId, response_channel: SyncSender<Option<Ticket>> },
}

/// What a command asks for, without its reply channel.
pub enum Request {
    Insert(DraftView),
    Get(u64),
}

impl View for Command {
    type V = Request;

    open spec fn view(&self) -> Request {
        match self {
            Command::Insert { draft, .. } => Request::Insert(draft@),
            Command::Get { id, .. } => Request::Get(id.0),
        }
    }
}

/// The records after the server has carried out `request`.
/// Reads leave the store as it was; so does an insertion once no id is left.
pub open spec fn served(records: Seq<TicketView>, request: Request) -> Seq<TicketView> {
    match request {
        Request::Insert(draft) => if full(records) {
            records
        } else {
            added(records, draft)
        },
        Request::Get(_) => records,
    }
}

/// What the server answers to `request` on a store holding `records`: the id
/// a new ticket received, or the result of a lookup. An insertion into a store
/// with no id left gets no answer.
pub open spec fn answer(records: Seq<TicketView>, request: Request) -> Answer {
    match request {
        Request::Insert(_) => if full(records) {
            Answer::Nothing
        } else {
            Answer::Id(next_id(records))
        },
        Request::Get(id) => Answer::Ticket(lookup(records, id)),
    }
}

/// The value a reply carries.
pub enum Answer {
    Id(u64),
    Ticket(Option<TicketView>),
    Nothing,
}

/// An answer decided by the server, together with the channel it goes back on.
pub enum Reply {
    Inserted { id: TicketId, response_channel: SyncSender<TicketId> },
    Found { ticket: Option<Ticket>, response_channel: SyncSender<Option<Ticket>> },
    Unanswered,
}

impl View for Reply {
    type V = Answer;

    open spec fn view(&self) -> Answer {
        match self {
            Reply::Inserted { id, .. } => Answer::Id(id.0),
            Reply::Found { ticket, .. } => Answer::Ticket(
                match ticket {
                    Some(t) => Some(t@),
                    None => None,
                },
            ),
            Reply::Unanswered => Answer::Nothing,
        }
    }
}

/// Whether `reply` goes back on the reply channel that `command` brought.
pub open spec fn addressed_to(reply: Reply, command: Command) -> bool {
    match reply {
        Reply::Inserted { response_channel: back, .. } => match command {
            Command::Insert { response_channel, .. } => back == response_channel,
            Command::Get { .. } => false,
        },
        Reply::Found { response_channel: back, .. } => match command {
            Command::Get { response_channel, .. } => back == response_channel,
            Command::Insert { .. } => false,
        },
        Reply::Unanswered => true,
    }
}

/// The command that asks to insert `draft`, answered on `response_channel`.
pub fn insert_command(draft: TicketDraft, response_channel: SyncSender<TicketId>) -> (c: Command)
    ensures
        c@ == Request::Insert(draft@),
        c == (Command::Insert { draft, response_channel }),
{
    Command::Insert { draft, response_channel }
}

/// The command that asks for the ticket under `id`, answered on `response_channel`.
pub fn get_command(id: TicketId, response_channel: SyncSender<Option<Ticket>>) -> (c: Command)
    ensures
        c@ == Request::Get(id.0),
        c == (Command::Get { id, response_channel }),
{
    Command::Get { id, response_channel }
}

/// Carries out `command` against the store and returns the answer it calls
/// for, addressed to the command's reply channel. An insertion answers with the
/// id the new ticket received, a read with a copy of the ticket under the id
/// asked for, or `None`.
pub fn execute(store: &mut TicketStore, command: Command) -> (r: Reply)
    ensures
        final(store)@ == served(old(store)@, command@),
        r@ == answer(old(store)@, command@),
        addressed_to(r, command),
{
    match command {
        Command::Insert { draft, response_channel } => {
            if store.is_full() {
                Reply::Unanswered
            } else {
                let id = store.add_ticket(draft);
                Reply::Inserted { id, response_channel }
            }
        },
        Command::Get { id, response_channel } => {
            let ticket = store.get(id);
            Reply::Found { ticket, response_channel }
        },
    }
}

/// Sends `reply` on its channel, once. An answer that nobody waits for any more
/// is dropped: a caller that gave up is no reason to stop serving the others.
/// With no answer to give, the channel is dropped and its caller sees it close.
pub fn deliver(reply: Reply) {
    match reply {
        Reply::Inserted { id, response_channel } => {
            let _ = submit(&response_channel, id);
        },
        Reply::Found { ticket, response_channel } => {
            let _ = submit(&response_channel, ticket);
        },
        Reply::Unanswered => {},
    }
}

/// One turn of the server's loop: carries out a received command with
/// `execute` and sends the answer it returned with `deliver`. `None` means that
/// every client is gone; the result says whether the server keeps running.
pub fn serve(store: &mut TicketStore, received: Option<Command>) -> (running: bool)
    ensures
        running == received is Some,
        final(store)@ == match received {
            Some(command) => served(old(store)@, command@),
            None => old(store)@,
        },
{
    match received {
        Some(command) => {
            let reply = execute(store, command);
            deliver(reply);
            true
        },
        None => false,
    }
}

} // verus!
