//! Facts about sequences of insertions and reads on a store's records.
use vstd::prelude::*;

use crate::data::{ticket_of, DraftView, TicketView};
use crate::server::{answer, served, Answer, Request};
use crate::store::{added, full, lookup, next_id, well_formed};

verus! {

/// The records after inserting each of `drafts` in turn.
pub open spec fn add_all(records: Seq<TicketView>, drafts: Seq<DraftView>) -> Seq<TicketView>
    decreases drafts.len(),
{
    if drafts.len() == 0 {
        records
    } else {
        added(add_all(records, drafts.drop_last()), drafts.last())
    }
}

/// The ids handed out, in order, while inserting each of `drafts` in turn.
pub open spec fn ids_given(records: Seq<TicketView>, drafts: Seq<DraftView>) -> Seq<u64> {
    Seq::new(drafts.len(), |i: int| next_id(add_all(records, drafts.take(i))))
}

proof fn lemma_add_all_len(records: Seq<TicketView>, drafts: Seq<DraftView>)
    requires
        records.len() + drafts.len() <= u64::MAX,
    ensures
        add_all(records, drafts).len() == records.len() + drafts.len(),
        well_formed(records) ==> well_formed(add_all(records, drafts)),
    decreases drafts.len(),
{
    if drafts.len() > 0 {
        lemma_add_all_len(records, drafts.drop_last());
    }
}

proof fn lemma_ids_given_values(records: Seq<TicketView>, drafts: Seq<DraftView>)
    requires
        records.len() + drafts.len() <= u64::MAX,
    ensures
        ids_given(records, drafts).len() == drafts.len(),
        forall|i: int|
            0 <= i < drafts.len() ==> #[trigger] ids_given(records, drafts)[i] == records.len() + i
                + 1,
{
    assert forall|i: int| 0 <= i < drafts.len() implies #[trigger] ids_given(records, drafts)[i]
        == records.len() + i + 1 by {
        lemma_add_all_len(records, drafts.take(i));
    }
}

/// Reading back the id that an insertion handed out gives the ticket made from
/// the inserted draft: same title, same description, status `ToDo`.
pub proof fn lemma_round_trip(records: Seq<TicketView>, draft: DraftView)
    requires
        !full(records),
    ensures
        lookup(added(records, draft), next_id(records)) == Some(
            ticket_of(next_id(records), draft),
        ),
        ticket_of(next_id(records), draft).title == draft.title,
        ticket_of(next_id(records), draft).description == draft.description,
{
}

/// The ids handed out by any run of insertions are pairwise distinct, and each
/// is larger than every id handed out before it.
pub proof fn lemma_ids_distinct(records: Seq<TicketView>, drafts: Seq<DraftView>)
    requires
        records.len() + drafts.len() <= u64::MAX,
    ensures
        forall|i: int, j: int|
            0 <= i < drafts.len() && 0 <= j < drafts.len() && i != j ==> ids_given(records, drafts)[i]
                != ids_given(records, drafts)[j],
        forall|i: int, j: int|
            0 <= i < j < drafts.len() ==> ids_given(records, drafts)[i] < ids_given(
                records,
                drafts,
            )[j],
{
    lemma_ids_given_values(records, drafts);
}

/// Two insertions one after the other: the first id is the smaller, it is not
/// readable before its own insertion, the second is not readable before the
/// second insertion, and afterwards both read back their own drafts.
pub proof fn lemma_insertion_order(records: Seq<TicketView>, first: DraftView, second: DraftView)
    requires
        records.len() + 2 <= u64::MAX,
    ensures
        ({
            let one = added(records, first);
            let two = added(one, second);
            let id1 = next_id(records);
            let id2 = next_id(one);
            &&& id1 < id2
            &&& lookup(records, id1) is None
            &&& lookup(one, id2) is None
            &&& lookup(two, id1) == Some(ticket_of(id1, first))
            &&& lookup(two, id2) == Some(ticket_of(id2, second))
        }),
{
}

/// In a store that started empty, an id reads back nothing exactly when no
/// insertion handed it out.
pub proof fn lemma_absent_unless_given(drafts: Seq<DraftView>, id: u64)
    requires
        drafts.len() <= u64::MAX,
    ensures
        lookup(add_all(Seq::empty(), drafts), id) is None <==> !ids_given(
            Seq::empty(),
            drafts,
        ).contains(id),
{
    let records = Seq::<TicketView>::empty();
    lemma_add_all_len(records, drafts);
    lemma_ids_given_values(records, drafts);
    if 1 <= id && id <= drafts.len() {
        assert(ids_given(records, drafts)[id - 1] == id);
    }
}

/// The records after the server has carried out each of `requests` in turn.
pub open spec fn replay(records: Seq<TicketView>, requests: Seq<Request>) -> Seq<TicketView>
    decreases requests.len(),
{
    if requests.len() == 0 {
        records
    } else {
        served(replay(records, requests.drop_last()), requests.last())
    }
}

/// The answers the server sends, in order, while carrying out each of `requests`.
pub open spec fn answers(records: Seq<TicketView>, requests: Seq<Request>) -> Seq<Answer> {
    Seq::new(
        requests.len(),
        |k: int| answer(replay(records, requests.take(k)), requests[k]),
    )
}

/// The id that the `i`-th answer hands out, for an insertion.
spec fn answered_id(requests: Seq<Request>, i: int) -> u64 {
    answers(Seq::empty(), requests)[i]->Id_0
}

proof fn lemma_replay_step(requests: Seq<Request>, k: int)
    requires
        0 <= k < requests.len(),
    ensures
        replay(Seq::empty(), requests.take(k + 1)) == served(
            replay(Seq::empty(), requests.take(k)),
            requests[k],
        ),
{
    assert(requests.take(k + 1).drop_last() =~= requests.take(k));
}

/// What the store holds after the first `k` requests of a server that started
/// empty: every insertion so far answered an id that now reads back its draft,
/// and nothing else reads back.
#[verifier::opaque]
spec fn holds_after(requests: Seq<Request>, k: int) -> bool {
    let now = replay(Seq::empty(), requests.take(k));
    &&& well_formed(now)
    &&& now.len() <= k
    &&& forall|i: int|
        0 <= i < k && #[trigger] requests[i] is Insert ==> answers(Seq::empty(), requests)[i] is Id
            && lookup(now, answered_id(requests, i)) == Some(
            ticket_of(answered_id(requests, i), requests[i]->Insert_0),
        )
    &&& forall|id: u64|
        #[trigger] lookup(now, id) is Some ==> exists|i: int|
            0 <= i < k && requests[i] is Insert && answers(Seq::empty(), requests)[i] == Answer::Id(
                id,
            )
}

proof fn lemma_holds_step(requests: Seq<Request>, j: int)
    requires
        requests.len() < u64::MAX,
        0 <= j < requests.len(),
        holds_after(requests, j),
    ensures
        holds_after(requests, j + 1),
{
    reveal(holds_after);
    let e = Seq::<TicketView>::empty();
    let k = j + 1;
    lemma_replay_step(requests, j);
    let before = replay(e, requests.take(j));
    let now = replay(e, requests.take(k));
    assert(answers(e, requests)[j] == answer(before, requests[j]));
    match requests[j] {
        Request::Insert(draft) => {
            assert(!full(before));
            assert(now == added(before, draft));
            assert forall|i: int|
                0 <= i < k && #[trigger] requests[i] is Insert implies answers(e, requests)[i] is Id
                    && lookup(now, answered_id(requests, i)) == Some(
                    ticket_of(answered_id(requests, i), requests[i]->Insert_0),
                ) by {
                if i < j {
                    assert(lookup(before, answered_id(requests, i)) is Some);
                }
            }
            assert forall|id: u64| #[trigger] lookup(now, id) is Some implies exists|i: int|
                0 <= i < k && requests[i] is Insert && answers(e, requests)[i] == Answer::Id(id) by {
                if id <= before.len() {
                    assert(lookup(before, id) is Some);
                } else {
                    assert(answers(e, requests)[j] == Answer::Id(id));
                }
            }
        },
        Request::Get(_) => {
            assert(now == before);
        },
    }
}

proof fn lemma_replay_holds(requests: Seq<Request>, k: int)
    requires
        requests.len() < u64::MAX,
        0 <= k <= requests.len(),
    ensures
        holds_after(requests, k),
    decreases k,
{
    if k == 0 {
        reveal(holds_after);
        assert(requests.take(0) =~= Seq::<Request>::empty());
    } else {
        lemma_replay_holds(requests, k - 1);
        lemma_holds_step(requests, k - 1);
    }
}

/// At the server: a read of the id that an earlier insertion was answered with
/// is answered with the ticket made from that insertion's draft.
pub proof fn lemma_server_reads_back(requests: Seq<Request>, i: int, j: int)
    requires
        requests.len() < u64::MAX,
        0 <= i < j < requests.len(),
        requests[i] is Insert,
        answers(Seq::empty(), requests)[i] is Id,
        requests[j] == Request::Get(answers(Seq::empty(), requests)[i]->Id_0),
    ensures
        answers(Seq::empty(), requests)[j] == Answer::Ticket(
            Some(
                ticket_of(answers(Seq::empty(), requests)[i]->Id_0, requests[i]->Insert_0),
            ),
        ),
{
    lemma_replay_holds(requests, j);
    reveal(holds_after);
}

/// At the server: every insertion is answered with an id, larger than the id
/// of every earlier insertion; so no two insertions get the same id.
pub proof fn lemma_server_ids_increase(requests: Seq<Request>, i: int, j: int)
    requires
        requests.len() < u64::MAX,
        0 <= i < j < requests.len(),
        requests[i] is Insert,
        requests[j] is Insert,
    ensures
        answers(Seq::empty(), requests)[i] is Id,
        answers(Seq::empty(), requests)[j] is Id,
        answers(Seq::empty(), requests)[i]->Id_0 < answers(Seq::empty(), requests)[j]->Id_0,
{
    lemma_replay_holds(requests, j);
    reveal(holds_after);
    assert(lookup(replay(Seq::empty(), requests.take(j)), answered_id(requests, i)) is Some);
}

/// At the server: a read answers `None` exactly when no earlier insertion was
/// answered with the id asked for.
pub proof fn lemma_server_absent_unless_given(requests: Seq<Request>, j: int, id: u64)
    requires
        requests.len() < u64::MAX,
        0 <= j < requests.len(),
        requests[j] == Request::Get(id),
    ensures
        answers(Seq::empty(), requests)[j] == Answer::Ticket(None) <==> !exists|i: int|
            0 <= i < j && requests[i] is Insert && answers(Seq::empty(), requests)[i]
                == Answer::Id(id),
{
    lemma_replay_holds(requests, j);
    reveal(holds_after);
    let now = replay(Seq::empty(), requests.take(j));
    if exists|i: int|
        0 <= i < j && requests[i] is Insert && answers(Seq::empty(), requests)[i] == Answer::Id(
            id,
        ) {
        let i = choose|i: int|
            0 <= i < j && requests[i] is Insert && answers(Seq::empty(), requests)[i]
                == Answer::Id(id);
        assert(lookup(now, answered_id(requests, i)) is Some);
    } else {
        if lookup(now, id) is Some {
            assert(false);
        }
    }
}

} // verus!
