//! The steps of a lock script.
//!
//! A lock script does not verify signatures itself. It checks the
//! transaction, picks the public key that has to have signed, and hands over
//! to a signature verifier, whose verdict becomes its own.

use vstd::prelude::*;
use crate::error::Error;
use crate::snapshot::Query;

verus! {

/// The call of the signature verifier that ends a run of the lock.
#[derive(Clone, Debug, PartialEq, Eq)]
pub struct AuthCall {
    /// The signature from the witness.
    pub signature: Vec<u8>,
    /// The message that has to be signed.
    pub message: [u8; 32],
    /// Hash of the public key that has to have signed.
    pub pubkey_hash: Vec<u8>,
}

/// An `AuthCall` as a mathematical value.
pub struct AuthCallView {
    pub signature: Seq<u8>,
    pub message: Seq<u8>,
    pub pubkey_hash: Seq<u8>,
}

impl View for AuthCall {
    type V = AuthCallView;

    open spec fn view(&self) -> AuthCallView {
        AuthCallView {
            signature: self.signature@,
            message: self.message@,
            pubkey_hash: self.pubkey_hash@,
        }
    }
}

/// The call that a run ends with, or what comes before it, as a
/// mathematical value.
pub open spec fn call_view<E>(call: Result<AuthCall, E>) -> Result<AuthCallView, E> {
    match call {
        Ok(c) => Ok(c@),
        Err(e) => Err(e),
    }
}

/// What the lock does next.
#[derive(Clone, Debug, PartialEq, Eq)]
pub enum Step {
    /// Ask the host, record the answer, and come back.
    Load(Query),
    /// Hand over to the signature verifier. Its verdict is the lock's.
    Exec(AuthCall),
    /// Leave the cell locked.
    Reject(Error),
}

/// A `Step` as a mathematical value.
pub enum StepView {
    Load(Query),
    Exec(AuthCallView),
    Reject(Error),
}

impl View for Step {
    type V = StepView;

    open spec fn view(&self) -> StepView {
        match self {
            Step::Load(q) => StepView::Load(*q),
            Step::Exec(call) => StepView::Exec(call@),
            Step::Reject(e) => StepView::Reject(*e),
        }
    }
}

} // verus!
