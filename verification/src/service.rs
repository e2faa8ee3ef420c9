//! The four operations on the store: create, approve, refund and view.
//!
//! Each operation is one request. A request that is turned down leaves
//! the store exactly as it was. The mutating operations are told whether
//! the caller was authenticated as the identity it claims; a caller that
//! was not is turned down before anything is read.

use vstd::prelude::*;
use crate::record::{EscrowDetails, EscrowError, EscrowRecord};
use crate::store::{AgreementStore, EscrowBook, StoreState};

verus! {

/// After a creation the keeper of the stored state is asked to extend
/// its lifetime where fewer than this many ledgers of it are left. The
/// request is a hint on resources; no operation depends on it.
pub const LIFETIME_THRESHOLD: u32 = 100;

/// The lifetime, in ledgers, that such an extension asks for.
pub const LIFETIME_TARGET: u32 = 100;

/// The escrow service. It holds nothing itself: all state is in the
/// store that each operation is given.
pub struct FreelancerEscrow;

impl FreelancerEscrow {
    /// The store after a creation, or why there is none. A creation
    /// writes a fresh record under `id`, over any record that was there,
    /// and counts itself.
    pub open spec fn create_result(
        state: StoreState,
        authenticated: bool,
        client: Seq<char>,
        freelancer: Seq<char>,
        amount: int,
        id: Seq<char>,
    ) -> Result<StoreState, EscrowError> {
        if !authenticated {
            Err(EscrowError::Unauthorized)
        } else {
            Ok(state.with_record(id, EscrowRecord::fresh(client, freelancer, amount)).counted())
        }
    }

    /// The store after an approval, or why there is none.
    pub open spec fn approve_result(
        state: StoreState,
        authenticated: bool,
        id: Seq<char>,
        approver: Seq<char>,
    ) -> Result<StoreState, EscrowError> {
        if !authenticated {
            Err(EscrowError::Unauthorized)
        } else if !state.has(id) {
            Err(EscrowError::NotFound)
        } else {
            match state.agreements[id].approve_result(approver) {
                Ok(next) => Ok(state.with_record(id, next)),
                Err(e) => Err(e),
            }
        }
    }

    /// The store after a refund, or why there is none.
    pub open spec fn refund_result(
        state: StoreState,
        authenticated: bool,
        id: Seq<char>,
        caller: Seq<char>,
    ) -> Result<StoreState, EscrowError> {
        if !authenticated {
            Err(EscrowError::Unauthorized)
        } else if !state.has(id) {
            Err(EscrowError::NotFound)
        } else {
            match state.agreements[id].refund_result(caller) {
                Ok(next) => Ok(state.with_record(id, next)),
                Err(e) => Err(e),
            }
        }
    }

    /// What a view of `id` shows.
    pub open spec fn view_result(state: StoreState, id: Seq<char>) -> Result<
        EscrowRecord,
        EscrowError,
    > {
        match state.lookup(id) {
            Some(record) => Ok(record),
            None => Err(EscrowError::NotFound),
        }
    }

    /// Creates the agreement `agreement_id` between `client` and
    /// `freelancer` over `amount`. `authenticated` says whether the
    /// caller was authenticated as `client`. On success the fresh record
    /// replaces any record under the identifier, the creation is counted,
    /// and `true` is returned.
    pub fn create_escrow(
        store: &mut AgreementStore,
        authenticated: bool,
        client: String,
        freelancer: String,
        amount: i128,
        agreement_id: String,
    ) -> (outcome: Result<bool, EscrowError>)
        requires
            authenticated ==> old(store)@.counter < u32::MAX,
        ensures
            match Self::create_result(
                old(store)@,
                authenticated,
                client@,
                freelancer@,
                amount as int,
                agreement_id@,
            ) {
                Ok(next) => final(store)@ == next && outcome == Ok::<bool, EscrowError>(true),
                Err(e) => final(store)@ == old(store)@ && outcome == Err::<bool, EscrowError>(e),
            },
    {
        if !authenticated {
            return Err(EscrowError::Unauthorized);
        }
        let escrow = EscrowDetails::new(client, freelancer, amount);
        store.put(EscrowBook::Agreement(agreement_id), escrow);
        store.increment_counter();
        Ok(true)
    }

    /// Records that `approver` approves the completion of `agreement_id`
    /// and returns whether the agreement is now completed.
    /// `authenticated` says whether the caller was authenticated as
    /// `approver`.
    pub fn approve_completion(
        store: &mut AgreementStore,
        authenticated: bool,
        agreement_id: String,
        approver: String,
    ) -> (outcome: Result<bool, EscrowError>)
        ensures
            match Self::approve_result(old(store)@, authenticated, agreement_id@, approver@) {
                Ok(next) => final(store)@ == next && outcome == Ok::<bool, EscrowError>(
                    next.agreements[agreement_id@].is_completed,
                ),
                Err(e) => final(store)@ == old(store)@ && outcome == Err::<bool, EscrowError>(e),
            },
    {
        if !authenticated {
            return Err(EscrowError::Unauthorized);
        }
        let key = EscrowBook::Agreement(agreement_id);
        let mut escrow = match store.get(&key) {
            Some(found) => found,
            None => {
                return Err(EscrowError::NotFound);
            },
        };
        match escrow.approve(&approver) {
            Ok(completed) => {
                store.put(key, escrow);
                Ok(completed)
            },
            Err(e) => Err(e),
        }
    }

    /// Marks `agreement_id` as refunded at the request of `client`.
    /// `authenticated` says whether the caller was authenticated as
    /// `client`. Returns `true` on success; a second refund succeeds like
    /// the first.
    pub fn refund_escrow(
        store: &mut AgreementStore,
        authenticated: bool,
        agreement_id: String,
        client: String,
    ) -> (outcome: Result<bool, EscrowError>)
        ensures
            match Self::refund_result(old(store)@, authenticated, agreement_id@, client@) {
                Ok(next) => final(store)@ == next && outcome == Ok::<bool, EscrowError>(true),
                Err(e) => final(store)@ == old(store)@ && outcome == Err::<bool, EscrowError>(e),
            },
    {
        if !authenticated {
            return Err(EscrowError::Unauthorized);
        }
        let key = EscrowBook::Agreement(agreement_id);
        let mut escrow = match store.get(&key) {
            Some(found) => found,
            None => {
                return Err(EscrowError::NotFound);
            },
        };
        match escrow.refund(&client) {
            Ok(done) => {
                store.put(key, escrow);
                Ok(done)
            },
            Err(e) => Err(e),
        }
    }

    /// A copy of the record of `agreement_id`. Anyone may look.
    pub fn view_escrow(store: &AgreementStore, agreement_id: String) -> (outcome: Result<
        EscrowDetails,
        EscrowError,
    >)
        ensures
            match Self::view_result(store@, agreement_id@) {
                Ok(record) => outcome.is_ok() && outcome.unwrap()@ == record,
                Err(e) => outcome == Err::<EscrowDetails, EscrowError>(e),
            },
    {
        match store.get(&EscrowBook::Agreement(agreement_id)) {
            Some(found) => Ok(found),
            None => Err(EscrowError::NotFound),
        }
    }
}

} // verus!
