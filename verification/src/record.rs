//! One escrow agreement and the transitions of its flags.

use vstd::prelude::*;

verus! {

/// Why an operation on an agreement was turned down.
#[derive(Clone, Copy, Debug, PartialEq, Eq, Structural)]
pub enum EscrowError {
    /// No record is stored under the agreement identifier.
    NotFound,
    /// The caller is not a party entitled to the action, or was not
    /// authenticated as the identity it claims.
    Unauthorized,
    /// The record's state forbids the action.
    InvalidState,
}

/// The mathematical value of an escrow agreement: identities are the
/// sequences of characters that name them.
pub struct EscrowRecord {
    pub client: Seq<char>,
    pub freelancer: Seq<char>,
    pub amount: int,
    pub client_approved: bool,
    pub freelancer_approved: bool,
    pub is_completed: bool,
    pub is_refunded: bool,
}

impl EscrowRecord {
    /// The record of an agreement that was just made: no flag is set.
    pub open spec fn fresh(client: Seq<char>, freelancer: Seq<char>, amount: int) -> EscrowRecord {
        EscrowRecord {
            client,
            freelancer,
            amount,
            client_approved: false,
            freelancer_approved: false,
            is_completed: false,
            is_refunded: false,
        }
    }

    /// `who` is the client or the freelancer of this agreement.
    pub open spec fn is_party(self, who: Seq<char>) -> bool {
        who == self.client || who == self.freelancer
    }

    /// The record after `approver` has signalled completion. Each party
    /// that `approver` is gets its flag set; the agreement is completed
    /// once both flags are set, and stays completed.
    pub open spec fn approved_by(self, approver: Seq<char>) -> EscrowRecord {
        let client_approved = self.client_approved || approver == self.client;
        let freelancer_approved = self.freelancer_approved || approver == self.freelancer;
        EscrowRecord {
            client_approved,
            freelancer_approved,
            is_completed: self.is_completed || (client_approved && freelancer_approved),
            ..self
        }
    }

    /// The record after the client has cancelled.
    pub open spec fn refunded(self) -> EscrowRecord {
        EscrowRecord { is_refunded: true, ..self }
    }

    /// What an approval by `approver` yields: the new record, or the
    /// reason why there is none.
    pub open spec fn approve_result(self, approver: Seq<char>) -> Result<EscrowRecord, EscrowError> {
        if self.is_party(approver) {
            Ok(self.approved_by(approver))
        } else {
            Err(EscrowError::Unauthorized)
        }
    }

    /// What a refund asked for by `caller` yields. The caller's identity
    /// is judged before the record's state.
    pub open spec fn refund_result(self, caller: Seq<char>) -> Result<EscrowRecord, EscrowError> {
        if caller != self.client {
            Err(EscrowError::Unauthorized)
        } else if self.is_completed {
            Err(EscrowError::InvalidState)
        } else {
            Ok(self.refunded())
        }
    }

    /// The agreement is completed exactly when both parties have approved.
    pub open spec fn consistent(self) -> bool {
        self.is_completed <==> (self.client_approved && self.freelancer_approved)
    }
}

/// One escrow agreement as it is stored.
#[derive(Debug, PartialEq, Eq)]
pub struct EscrowDetails {
    /// The party that funds the agreement and may ask for a refund.
    pub client: String,
    /// The party that does the work.
    pub freelancer: String,
    /// The agreed payment. Any value is taken, negative ones too.
    pub amount: i128,
    /// The client has signalled completion.
    pub client_approved: bool,
    /// The freelancer has signalled completion.
    pub freelancer_approved: bool,
    /// Both parties have approved.
    pub is_completed: bool,
    /// The client has cancelled before completion.
    pub is_refunded: bool,
}

impl View for EscrowDetails {
    type V = EscrowRecord;

    open spec fn view(&self) -> EscrowRecord {
        EscrowRecord {
            client: self.client@,
            freelancer: self.freelancer@,
            amount: self.amount as int,
            client_approved: self.client_approved,
            freelancer_approved: self.freelancer_approved,
            is_completed: self.is_completed,
            is_refunded: self.is_refunded,
        }
    }
}

impl Clone for EscrowDetails {
    fn clone(&self) -> (copy: Self)
        ensures
            copy@ == self@,
    {
        EscrowDetails {
            client: self.client.clone(),
            freelancer: self.freelancer.clone(),
            amount: self.amount,
            client_approved: self.client_approved,
            freelancer_approved: self.freelancer_approved,
            is_completed: self.is_completed,
            is_refunded: self.is_refunded,
        }
    }
}

impl EscrowDetails {
    /// A new agreement between `client` and `freelancer` over `amount`,
    /// with no approval and neither completed nor refunded.
    pub fn new(client: String, freelancer: String, amount: i128) -> (record: EscrowDetails)
        ensures
            record@ == EscrowRecord::fresh(client@, freelancer@, amount as int),
    {
        EscrowDetails {
            client,
            freelancer,
            amount,
            client_approved: false,
            freelancer_approved: false,
            is_completed: false,
            is_refunded: false,
        }
    }

    /// Records the approval of `approver` and returns whether the
    /// agreement is now completed. An approver who is neither party is
    /// turned down and the record stays as it was.
    pub fn approve(&mut self, approver: &String) -> (outcome: Result<bool, EscrowError>)
        ensures
            match old(self)@.approve_result(approver@) {
                Ok(next) => final(self)@ == next && outcome == Ok::<bool, EscrowError>(next.is_completed),
                Err(e) => final(self)@ == old(self)@ && outcome == Err::<bool, EscrowError>(e),
            },
    {
        let by_client = *approver == self.client;
        let by_freelancer = *approver == self.freelancer;
        if !by_client && !by_freelancer {
            return Err(EscrowError::Unauthorized);
        }
        if by_client {
            self.client_approved = true;
        }
        if by_freelancer {
            self.freelancer_approved = true;
        }
        if self.client_approved && self.freelancer_approved {
            self.is_completed = true;
        }
        Ok(self.is_completed)
    }

    /// Marks the agreement as refunded at the request of `caller`. Only
    /// the client may ask, and only while the agreement is not completed;
    /// otherwise the record stays as it was.
    pub fn refund(&mut self, caller: &String) -> (outcome: Result<bool, EscrowError>)
        ensures
            match old(self)@.refund_result(caller@) {
                Ok(next) => final(self)@ == next && outcome == Ok::<bool, EscrowError>(true),
                Err(e) => final(self)@ == old(self)@ && outcome == Err::<bool, EscrowError>(e),
            },
    {
        if *caller != self.client {
            return Err(EscrowError::Unauthorized);
        }
        if self.is_completed {
            return Err(EscrowError::InvalidState);
        }
        self.is_refunded = true;
        Ok(true)
    }
}

} // verus!
