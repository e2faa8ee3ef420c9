//! What holds of the escrow operations, whatever the store and the
//! request. Each statement is over the same spec functions that the
//! contracts of the operations use.

use vstd::prelude::*;
use crate::record::{EscrowError, EscrowRecord};
use crate::service::FreelancerEscrow;
use crate::store::StoreState;

verus! {

/// One request to the service, as a value.
pub enum Request {
    Create {
        authenticated: bool,
        client: Seq<char>,
        freelancer: Seq<char>,
        amount: int,
        id: Seq<char>,
    },
    Approve { authenticated: bool, id: Seq<char>, approver: Seq<char> },
    Refund { authenticated: bool, id: Seq<char>, caller: Seq<char> },
}

/// The store that a request leaves behind: the new one where the request
/// succeeded, the old one where it was turned down.
pub open spec fn settled(before: StoreState, result: Result<StoreState, EscrowError>) -> StoreState {
    match result {
        Ok(next) => next,
        Err(_) => before,
    }
}

/// The store after `request` was served on `before`.
pub open spec fn served(before: StoreState, request: Request) -> StoreState {
    match request {
        Request::Create { authenticated, client, freelancer, amount, id } => settled(
            before,
            FreelancerEscrow::create_result(before, authenticated, client, freelancer, amount, id),
        ),
        Request::Approve { authenticated, id, approver } => settled(
            before,
            FreelancerEscrow::approve_result(before, authenticated, id, approver),
        ),
        Request::Refund { authenticated, id, caller } => settled(
            before,
            FreelancerEscrow::refund_result(before, authenticated, id, caller),
        ),
    }
}

/// The store after `requests` were served in turn, starting from the
/// empty store.
pub open spec fn replayed(requests: Seq<Request>) -> StoreState
    decreases requests.len(),
{
    if requests.len() == 0 {
        StoreState::empty()
    } else {
        served(replayed(requests.drop_last()), requests.last())
    }
}

/// Every stored agreement is completed exactly when both of its parties
/// have approved.
pub open spec fn all_consistent(state: StoreState) -> bool {
    forall|id: Seq<char>| state.has(id) ==> (#[trigger] state.agreements[id]).consistent()
}

/// Right after a successful creation the agreement is stored with no
/// flag set: it is not completed, not refunded, and nobody has approved.
pub proof fn law_created_is_open(
    before: StoreState,
    client: Seq<char>,
    freelancer: Seq<char>,
    amount: int,
    id: Seq<char>,
)
    ensures
        FreelancerEscrow::create_result(before, true, client, freelancer, amount, id).is_ok(),
        ({
            let after = FreelancerEscrow::create_result(
                before,
                true,
                client,
                freelancer,
                amount,
                id,
            ).unwrap();
            &&& FreelancerEscrow::view_result(after, id) == Ok::<EscrowRecord, EscrowError>(
                EscrowRecord::fresh(client, freelancer, amount),
            )
            &&& !after.agreements[id].is_completed
            &&& !after.agreements[id].is_refunded
            &&& !after.agreements[id].client_approved
            &&& !after.agreements[id].freelancer_approved
            &&& after.counter == before.counter + 1
        }),
{
}

/// Serving a request keeps the stored agreements consistent: each is
/// completed exactly when both parties have approved.
pub proof fn law_serving_keeps_consistency(before: StoreState, request: Request)
    requires
        all_consistent(before),
    ensures
        all_consistent(served(before, request)),
{
    let after = served(before, request);
    assert forall|id: Seq<char>| after.has(id) implies (#[trigger] after.agreements[id]).consistent() by {
        if before.has(id) {
            assert(before.agreements[id].consistent());
        }
    }
}

/// In every store that requests can lead to from the empty one, an
/// agreement is completed if and only if both its client and its
/// freelancer have approved.
pub proof fn law_completed_iff_both_approved(requests: Seq<Request>, id: Seq<char>)
    requires
        replayed(requests).has(id),
    ensures
        replayed(requests).agreements[id].is_completed <==> (replayed(
            requests,
        ).agreements[id].client_approved && replayed(requests).agreements[id].freelancer_approved),
{
    lemma_replayed_is_consistent(requests);
    assert(replayed(requests).agreements[id].consistent());
}

proof fn lemma_replayed_is_consistent(requests: Seq<Request>)
    ensures
        all_consistent(replayed(requests)),
    decreases requests.len(),
{
    if requests.len() > 0 {
        lemma_replayed_is_consistent(requests.drop_last());
        law_serving_keeps_consistency(replayed(requests.drop_last()), requests.last());
    }
}

/// An approval by an identity that is neither the stored client nor the
/// stored freelancer is turned down as unauthorized, and the store stays
/// as it was.
pub proof fn law_stranger_cannot_approve(
    before: StoreState,
    authenticated: bool,
    id: Seq<char>,
    approver: Seq<char>,
)
    requires
        before.has(id),
        !before.agreements[id].is_party(approver),
    ensures
        FreelancerEscrow::approve_result(before, authenticated, id, approver) == Err::<
            StoreState,
            EscrowError,
        >(EscrowError::Unauthorized),
        served(before, Request::Approve { authenticated, id, approver }) == before,
{
}

/// A refund that the authenticated client asks for once the agreement is
/// completed is turned down for the state of the agreement, and the store
/// stays as it was.
pub proof fn law_completed_is_not_refunded(before: StoreState, id: Seq<char>, caller: Seq<char>)
    requires
        before.has(id),
        before.agreements[id].is_completed,
        caller == before.agreements[id].client,
    ensures
        FreelancerEscrow::refund_result(before, true, id, caller) == Err::<StoreState, EscrowError>(
            EscrowError::InvalidState,
        ),
        served(before, Request::Refund { authenticated: true, id, caller }) == before,
{
}

/// A refund of a stored agreement asked for by anyone but its client is
/// turned down as unauthorized, whatever the state of the agreement, and
/// the store stays as it was.
pub proof fn law_only_client_refunds(
    before: StoreState,
    authenticated: bool,
    id: Seq<char>,
    caller: Seq<char>,
)
    requires
        before.has(id),
        caller != before.agreements[id].client,
    ensures
        FreelancerEscrow::refund_result(before, authenticated, id, caller) == Err::<
            StoreState,
            EscrowError,
        >(EscrowError::Unauthorized),
        served(before, Request::Refund { authenticated, id, caller }) == before,
{
}

/// A view of an identifier that has no record finds nothing.
pub proof fn law_view_of_missing(state: StoreState, id: Seq<char>)
    requires
        !state.has(id),
    ensures
        FreelancerEscrow::view_result(state, id) == Err::<EscrowRecord, EscrowError>(
            EscrowError::NotFound,
        ),
{
}

/// A view shows the record that was last written under the identifier,
/// and a write under one identifier changes the view of no other.
pub proof fn law_view_shows_last_write(
    state: StoreState,
    id: Seq<char>,
    record: EscrowRecord,
    other: Seq<char>,
)
    ensures
        FreelancerEscrow::view_result(state.with_record(id, record), id) == Ok::<
            EscrowRecord,
            EscrowError,
        >(record),
        FreelancerEscrow::view_result(state.with_record(id, record).counted(), id) == Ok::<
            EscrowRecord,
            EscrowError,
        >(record),
        other != id ==> FreelancerEscrow::view_result(state.with_record(id, record), other)
            == FreelancerEscrow::view_result(state, other),
{
}

/// After a successful approval or refund, a view of the agreement shows
/// the record that the operation wrote; after one that was turned down,
/// it shows what it showed before.
pub proof fn law_view_follows_requests(
    before: StoreState,
    authenticated: bool,
    id: Seq<char>,
    who: Seq<char>,
)
    requires
        before.has(id),
    ensures
        FreelancerEscrow::view_result(
            served(before, Request::Approve { authenticated, id, approver: who }),
            id,
        ) == Ok::<EscrowRecord, EscrowError>(
            if authenticated && before.agreements[id].is_party(who) {
                before.agreements[id].approved_by(who)
            } else {
                before.agreements[id]
            },
        ),
        FreelancerEscrow::view_result(
            served(before, Request::Refund { authenticated, id, caller: who }),
            id,
        ) == Ok::<EscrowRecord, EscrowError>(
            if authenticated && who == before.agreements[id].client
                && !before.agreements[id].is_completed {
                before.agreements[id].refunded()
            } else {
                before.agreements[id]
            },
        ),
{
}

/// An approval repeated by the same approver changes nothing: the store
/// after the second call is the store after the first, and so is the
/// completion flag that the call reports.
pub proof fn law_approval_is_idempotent(
    before: StoreState,
    authenticated: bool,
    id: Seq<char>,
    approver: Seq<char>,
)
    requires
        FreelancerEscrow::approve_result(before, authenticated, id, approver).is_ok(),
    ensures
        ({
            let once = FreelancerEscrow::approve_result(
                before,
                authenticated,
                id,
                approver,
            ).unwrap();
            let twice = FreelancerEscrow::approve_result(once, authenticated, id, approver);
            &&& twice == Ok::<StoreState, EscrowError>(once)
            &&& twice.unwrap().agreements[id].is_completed == once.agreements[id].is_completed
        }),
{
    let once = FreelancerEscrow::approve_result(before, authenticated, id, approver).unwrap();
    let record = once.agreements[id];
    assert(record.approved_by(approver) == record);
    assert(once.agreements.insert(id, record) =~= once.agreements);
}

/// A refund repeated by the client succeeds again and changes nothing.
pub proof fn law_refund_is_repeatable(
    before: StoreState,
    authenticated: bool,
    id: Seq<char>,
    caller: Seq<char>,
)
    requires
        FreelancerEscrow::refund_result(before, authenticated, id, caller).is_ok(),
    ensures
        ({
            let once = FreelancerEscrow::refund_result(before, authenticated, id, caller).unwrap();
            FreelancerEscrow::refund_result(once, authenticated, id, caller) == Ok::<
                StoreState,
                EscrowError,
            >(once)
        }),
{
    let once = FreelancerEscrow::refund_result(before, authenticated, id, caller).unwrap();
    let record = once.agreements[id];
    assert(record.refunded() == record);
    assert(once.agreements.insert(id, record) =~= once.agreements);
}

/// Approvals and refunds never clear a flag of a stored agreement, never
/// remove a record, and leave the parties, the amount and the creation
/// counter as they were.
pub proof fn law_flags_are_never_cleared(before: StoreState, request: Request, id: Seq<char>)
    requires
        before.has(id),
        !(request is Create),
    ensures
        ({
            let then = before.agreements[id];
            let now = served(before, request).agreements[id];
            &&& served(before, request).has(id)
            &&& served(before, request).counter == before.counter
            &&& now.client == then.client
            &&& now.freelancer == then.freelancer
            &&& now.amount == then.amount
            &&& then.client_approved ==> now.client_approved
            &&& then.freelancer_approved ==> now.freelancer_approved
            &&& then.is_completed ==> now.is_completed
            &&& then.is_refunded ==> now.is_refunded
        }),
{
}

/// No request removes a record, and the creation counter never goes
/// down: it goes up by one with each creation that succeeds, and with
/// nothing else.
pub proof fn law_records_stay_and_creations_count(
    before: StoreState,
    request: Request,
    id: Seq<char>,
)
    ensures
        before.has(id) ==> served(before, request).has(id),
        served(before, request).counter == before.counter + (if request is Create
            && request->Create_authenticated {
            1nat
        } else {
            0nat
        }),
{
}

} // verus!
