//! The funding lock: the two-of-two cell that holds the funds of a channel
//! while both parties cooperate.
//!
//! The cell is spent with one signature of the aggregated key of the two
//! parties. The witness is
//!
//! | offset | length | field                             |
//! |--------|--------|-----------------------------------|
//! | 0      | 8      | version, little endian            |
//! | 8      | 36     | funding outpoint                  |
//! | 44     | 32     | aggregated public key, x only     |
//! | 76     | 65     | signature                         |
//!
//! and the script argument commits to the first three fields. The signed
//! message binds the version and the outpoint to the spending transaction.

use vstd::prelude::*;
use vstd::slice::{slice_subrange, slice_to_vec};
use crate::error::Error;
use crate::hash::{blake2b_160, blake2b_256, blake2b_256_digest, bytes_eq, short_blake2b, SHORT_HASH_LEN};
use crate::snapshot::{answer, read, Halt, Query, Snapshot};
use crate::step::{call_view, AuthCall, AuthCallView, Step, StepView};

verus! {

/// End of the version and the funding outpoint, which the message binds.
pub const FUNDING_OUTPOINT_END: usize = 44;

/// Length of the witness script: version, funding outpoint and public key.
pub const FUNDING_SCRIPT_LEN: usize = 76;

/// Length of the witness.
pub const FUNDING_WITNESS_LEN: usize = 141;

/// The message that the two parties sign to spend the funding cell in the
/// transaction with the hash `tx_hash`.
pub open spec fn funding_message(witness: Seq<u8>, tx_hash: Seq<u8>) -> Seq<u8> {
    blake2b_256_digest(witness.subrange(0, FUNDING_OUTPOINT_END as int) + tx_hash)
}

/// A whole run of the funding lock on the answers in `s`: the input is alone
/// in its script group, the script argument is a short hash, the witness has
/// its one length and its script hashes to the script argument; the rest is
/// up to the signature of the aggregated key.
pub open spec fn decide(s: Snapshot) -> Result<AuthCallView, Halt> {
    match s.second_input {
        None => Err(Halt::Load(Query::SecondInput)),
        Some(true) => Err(Halt::Reject(Error::MultipleInputs)),
        Some(false) => match answer(s.script, Query::Script) {
            Err(h) => Err(h),
            Ok(script) => if script@.args.len() != SHORT_HASH_LEN {
                Err(Halt::Reject(Error::ArgsLenError))
            } else {
                match answer(s.witness, Query::Witness) {
                    Err(h) => Err(h),
                    Ok(witness) => if witness@.len() != FUNDING_WITNESS_LEN {
                        Err(Halt::Reject(Error::WitnessLenError))
                    } else if blake2b_160(witness@.subrange(0, FUNDING_SCRIPT_LEN as int))
                        != script@.args {
                        Err(Halt::Reject(Error::WitnessHashError))
                    } else {
                        match answer(s.tx_hash, Query::TxHash) {
                            Err(h) => Err(h),
                            Ok(tx_hash) => if s.exec_failed {
                                Err(Halt::Reject(Error::AuthError))
                            } else {
                                Ok(
                                    AuthCallView {
                                        signature: witness@.subrange(
                                            FUNDING_SCRIPT_LEN as int,
                                            FUNDING_WITNESS_LEN as int,
                                        ),
                                        message: funding_message(witness@, tx_hash@),
                                        pubkey_hash: blake2b_160(
                                            witness@.subrange(
                                                FUNDING_OUTPOINT_END as int,
                                                FUNDING_SCRIPT_LEN as int,
                                            ),
                                        ),
                                    },
                                )
                            },
                        }
                    },
                }
            },
        },
    }
}

/// The next step of the funding lock on the answers in `s`.
pub open spec fn auth_spec(s: Snapshot) -> StepView {
    match decide(s) {
        Ok(call) => StepView::Exec(call),
        Err(Halt::Load(q)) => StepView::Load(q),
        Err(Halt::Reject(e)) => StepView::Reject(e),
    }
}

fn run(s: &Snapshot) -> (call: Result<AuthCall, Halt>)
    ensures
        call_view(call) == decide(*s),
{
    match s.second_input {
        None => {
            return Err(Halt::Load(Query::SecondInput));
        },
        Some(true) => {
            return Err(Halt::Reject(Error::MultipleInputs));
        },
        Some(false) => {},
    }
    let script = read(&s.script, Query::Script)?;
    if script.args.len() != SHORT_HASH_LEN {
        return Err(Halt::Reject(Error::ArgsLenError));
    }
    let witness = read(&s.witness, Query::Witness)?;
    if witness.len() != FUNDING_WITNESS_LEN {
        return Err(Halt::Reject(Error::WitnessLenError));
    }
    let witness = witness.as_slice();
    let hash = short_blake2b(slice_subrange(witness, 0, FUNDING_SCRIPT_LEN));
    if !bytes_eq(hash.as_slice(), script.args.as_slice()) {
        return Err(Halt::Reject(Error::WitnessHashError));
    }
    let tx_hash = read(&s.tx_hash, Query::TxHash)?;
    if s.exec_failed {
        return Err(Halt::Reject(Error::AuthError));
    }
    let mut bound: Vec<u8> = Vec::new();
    bound.extend_from_slice(slice_subrange(witness, 0, FUNDING_OUTPOINT_END));
    bound.extend_from_slice(tx_hash.as_slice());
    assert(bound@ == witness@.subrange(0, FUNDING_OUTPOINT_END as int) + tx_hash@);
    Ok(
        AuthCall {
            signature: slice_to_vec(slice_subrange(witness, FUNDING_SCRIPT_LEN, FUNDING_WITNESS_LEN)),
            message: blake2b_256(bound.as_slice()),
            pubkey_hash: short_blake2b(
                slice_subrange(witness, FUNDING_OUTPOINT_END, FUNDING_SCRIPT_LEN),
            ),
        },
    )
}

/// Runs the funding lock as far as the host's answers in `s` reach, and
/// tells the next step.
pub fn auth(s: &Snapshot) -> (step: Step)
    ensures
        step@ == auth_spec(*s),
{
    match run(s) {
        Ok(call) => Step::Exec(call),
        Err(Halt::Load(q)) => Step::Load(q),
        Err(Halt::Reject(e)) => Step::Reject(e),
    }
}

} // verus!
