use vstd::prelude::*;

verus! {

/// Identifier of a ticket, handed out by the store that holds it.
#[derive(Clone, Copy, Debug, PartialEq, Eq, Structural, Hash, PartialOrd, Ord)]
pub struct TicketId(pub u64);

/// Where a ticket stands in its workflow; new tickets start at `ToDo`.
#[derive(Clone, Copy, Debug, PartialEq, Eq, Structural)]
pub enum Status {
    ToDo,
    InProgress,
    Done,
}

/// The content a caller supplies for a new ticket.
#[derive(Clone, Debug, PartialEq, Eq)]
pub struct TicketDraft {
    pub title: String,
    pub description: String,
}

/// A stored ticket: a draft together with the id and status the store gave it.
#[derive(Clone, Debug, PartialEq, Eq)]
pub struct Ticket {
    pub id: TicketId,
    pub title: String,
    pub description: String,
    pub status: Status,
}

pub struct DraftView {
    pub title: Seq<char>,
    pub description: Seq<char>,
}

pub struct TicketView {
    pub id: u64,
    pub title: Seq<char>,
    pub description: Seq<char>,
    pub status: Status,
}

impl View for TicketDraft {
    type V = DraftView;

    open spec fn view(&self) -> DraftView {
        DraftView { title: self.title@, description: self.description@ }
    }
}

impl View for Ticket {
    type V = TicketView;

    open spec fn view(&self) -> TicketView {
        TicketView {
            id: self.id.0,
            title: self.title@,
            description: self.description@,
            status: self.status,
        }
    }
}

/// The ticket that a draft becomes under the given id.
pub open spec fn ticket_of(id: u64, draft: DraftView) -> TicketView {
    TicketView {
        id,
        title: draft.title,
        description: draft.description,
        status: Status::ToDo,
    }
}

impl Ticket {
    /// Turns a draft into a fresh ticket with the given id.
    pub fn from_draft(id: TicketId, draft: TicketDraft) -> (r: Ticket)
        ensures
            r@ == ticket_of(id.0, draft@),
    {
        Ticket { id, title: draft.title, description: draft.description, status: Status::ToDo }
    }

    /// A copy of this ticket, field by field.
    pub fn duplicate(&self) -> (r: Ticket)
        ensures
            r@ == self@,
    {
        Ticket {
            id: self.id,
            title: self.title.clone(),
            description: self.description.clone(),
            status: self.status,
        }
    }
}

} // verus!
