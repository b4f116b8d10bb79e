use vstd::prelude::*;

use std::sync::mpsc::{Receiver, SyncSender};

use crate::channel::{bounded, receive, submit};
use crate::data::{Ticket, TicketDraft, TicketId};
use crate::server::{get_command, insert_command, Command};

verus! {

/// The two calls a client makes, told apart in its error messages.
#[derive(Clone, Copy, Debug, PartialEq, Eq, Structural)]
pub enum Operation {
    Insert,
    Get,
}

impl Operation {
    /// The error when the command could not be queued: the server has stopped.
    pub open spec fn send_failure(self) -> Seq<char> {
        match self {
            Operation::Insert => "Failed to send Insert command"@,
            Operation::Get => "Failed to send Get command"@,
        }
    }

    /// The error when the reply channel closed without an answer.
    pub open spec fn receive_failure(self) -> Seq<char> {
        match self {
            Operation::Insert => "Failed to receive response for Insert"@,
            Operation::Get => "Failed to receive response for Get"@,
        }
    }
}

/// The result of a call, from whether its command was queued and what came
/// back on its reply channel (`None` when it closed empty).
pub fn settle<T>(op: Operation, submitted: bool, reply: Option<T>) -> (r: Result<T, String>)
    ensures
        !submitted ==> r is Err && r->Err_0@ == op.send_failure(),
        submitted && reply is Some ==> r == Ok::<T, String>(reply->0),
        submitted && reply is None ==> r is Err && r->Err_0@ == op.receive_failure(),
{
    if !submitted {
        let message = match op {
            Operation::Insert => String::from_str("Failed to send Insert command"),
            Operation::Get => String::from_str("Failed to send Get command"),
        };
        return Err(message);
    }
    match reply {
        Some(value) => Ok(value),
        None => {
            let message = match op {
                Operation::Insert => String::from_str("Failed to receive response for Insert"),
                Operation::Get => String::from_str("Failed to receive response for Get"),
            };
            Err(message)
        },
    }
}

/// A handle on the server's mailbox. Clones share the mailbox, nothing else.
#[derive(Clone)]
pub struct TicketStoreClient {
    sender: SyncSender<Command>,
    capacity: usize,
}

/// A new mailbox holding at most `capacity` pending commands: the client that
/// feeds it and the receiving end that the server drains.
pub fn mailbox(capacity: usize) -> (r: (TicketStoreClient, Receiver<Command>))
    ensures
        r.0.capacity_spec() == capacity,
{
    let (sender, receiver) = bounded(capacity);
    (TicketStoreClient { sender, capacity }, receiver)
}

impl TicketStoreClient {
    pub closed spec fn capacity_spec(&self) -> usize {
        self.capacity
    }

    /// The capacity the mailbox was made with, which also sizes each reply channel.
    pub fn capacity(&self) -> (r: usize)
        ensures
            r == self.capacity_spec(),
    {
        self.capacity
    }

    /// Queues an insertion of `draft`, waiting for room in the mailbox, then
    /// waits for the id the server gave the new ticket.
    pub fn insert(&self, draft: TicketDraft) -> (r: Result<TicketId, String>)
        ensures
            r is Err ==> r->Err_0@ == Operation::Insert.send_failure() || r->Err_0@
                == Operation::Insert.receive_failure(),
    {
        let (response_channel, replies) = bounded(self.capacity);
        let submitted = submit(&self.sender, insert_command(draft, response_channel));
        let reply = if submitted {
            receive(&replies)
        } else {
            None
        };
        settle(Operation::Insert, submitted, reply)
    }

    /// Queues a read of the ticket under `id`, waiting for room in the mailbox,
    /// then waits for the server's answer: a copy of the ticket, or `None`.
    pub fn get(&self, id: TicketId) -> (r: Result<Option<Ticket>, String>)
        ensures
            r is Err ==> r->Err_0@ == Operation::Get.send_failure() || r->Err_0@
                == Operation::Get.receive_failure(),
    {
        let (response_channel, replies) = bounded(self.capacity);
        let submitted = submit(&self.sender, get_command(id, response_channel));
        let reply = if submitted {
            receive(&replies)
        } else {
            None
        };
        settle(Operation::Get, submitted, reply)
    }
}

} // verus!
