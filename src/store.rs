use vstd::prelude::*;

use crate::data::{ticket_of, DraftView, Ticket, TicketDraft, TicketId, TicketView};

verus! {

/// Records of a store, listed in the order they were added.
/// A well-formed list gives the k-th record the id k, counting from one.
pub open spec fn well_formed(records: Seq<TicketView>) -> bool {
    forall|i: int| 0 <= i < records.len() ==> #[trigger] records[i].id == i + 1
}

/// No id is left to hand out once the counter has reached the top of `u64`.
pub open spec fn full(records: Seq<TicketView>) -> bool {
    records.len() >= u64::MAX
}

/// The id that the next insertion will receive.
pub open spec fn next_id(records: Seq<TicketView>) -> u64 {
    (records.len() + 1) as u64
}

/// The records after one insertion of `draft`.
pub open spec fn added(records: Seq<TicketView>, draft: DraftView) -> Seq<TicketView> {
    records.push(ticket_of(next_id(records), draft))
}

/// The record stored under `id`, if any.
pub open spec fn lookup(records: Seq<TicketView>, id: u64) -> Option<TicketView> {
    if 1 <= id && id <= records.len() {
        Some(records[id - 1])
    } else {
        None
    }
}

/// Tickets held in memory, keyed by the ids the store assigns itself.
pub struct TicketStore {
    tickets: Vec<Ticket>,
}

impl View for TicketStore {
    type V = Seq<TicketView>;

    closed spec fn view(&self) -> Seq<TicketView> {
        self.tickets@.map_values(|t: Ticket| t@)
    }
}

impl TicketStore {
    #[verifier::type_invariant]
    spec fn ids_follow_positions(&self) -> bool {
        well_formed(self@)
    }

    /// An empty store.
    pub fn new() -> (r: TicketStore)
        ensures
            r@ == Seq::<TicketView>::empty(),
    {
        let r = TicketStore { tickets: Vec::new() };
        assert(r@ =~= Seq::<TicketView>::empty());
        r
    }

    /// Number of tickets held.
    pub fn len(&self) -> (r: usize)
        ensures
            r == self@.len(),
    {
        self.tickets.len()
    }

    /// Whether every id has been handed out already.
    pub fn is_full(&self) -> (r: bool)
        ensures
            r == full(self@),
    {
        self.tickets.len() as u64 == u64::MAX
    }

    /// Stores the ticket made from `draft` under a fresh id and returns that id.
    pub fn add_ticket(&mut self, draft: TicketDraft) -> (r: TicketId)
        requires
            !full(old(self)@),
        ensures
            r.0 == next_id(old(self)@),
            final(self)@ == added(old(self)@, draft@),
    {
        proof {
            use_type_invariant(&*self);
        }
        let ghost before = self@;
        let id = TicketId(self.tickets.len() as u64 + 1);
        let mut tickets = Vec::new();
        std::mem::swap(&mut self.tickets, &mut tickets);
        tickets.push(Ticket::from_draft(id, draft));
        assert(tickets@.map_values(|t: Ticket| t@) =~= added(before, draft@));
        self.tickets = tickets;
        id
    }

    /// A copy of the ticket stored under `id`, or `None` when no ticket has it.
    pub fn get(&self, id: TicketId) -> (r: Option<Ticket>)
        ensures
            r is Some <==> lookup(self@, id.0) is Some,
            r is Some ==> lookup(self@, id.0) == Some(r->0@),
    {
        if id.0 >= 1 && id.0 <= self.tickets.len() as u64 {
            Some(self.tickets[(id.0 - 1) as usize].duplicate())
        } else {
            None
        }
    }
}

} // verus!
