//! The commitment lock: from the host's answers to the next step.
//!
//! A run of the lock is a chain of checks, each on an answer of the host.
//! [`auth`] walks the chain as far as the answers in a [`Snapshot`] reach and
//! says what comes next: a question to the host, the refusal to unlock, or
//! the call of the signature verifier, which decides in the lock's place.

use vstd::prelude::*;
use vstd::slice::slice_to_vec;
use crate::error::Error;
use crate::hash::{blake2b_160, bytes_eq, bytes_view, short_blake2b, SHORT_HASH_LEN};
use crate::htlc::settle_spec;
use crate::snapshot::{
    answer, read, same_type, script_view, token_amount, token_amount_of, Halt, Query, Script,
    ScriptView, Snapshot,
};
use crate::step::{call_view, AuthCall, AuthCallView, Step, StepView};
use crate::witness::{parse_spec, settlement_signer, Witness, WitnessView, UNLOCK_SETTLEMENT};

verus! {

/// What the lock has established once the witness is known to be the one
/// that the cell commits to.
pub struct Commitment {
    /// The type script of the input, if it has one.
    pub input_type: Option<ScriptView>,
    /// The lock script that is running.
    pub script: ScriptView,
    /// The decoded witness.
    pub witness: WitnessView,
}

/// The first part of a run: the input is alone in its script group, the
/// script argument is a short hash, the witness decodes, and its script
/// hashes to the script argument.
pub open spec fn commitment(s: Snapshot) -> Result<Commitment, Halt> {
    match s.second_input {
        None => Err(Halt::Load(Query::SecondInput)),
        Some(true) => Err(Halt::Reject(Error::MultipleInputs)),
        Some(false) => match answer(s.input_type, Query::InputType) {
            Err(h) => Err(h),
            Ok(input_type) => match answer(s.script, Query::Script) {
                Err(h) => Err(h),
                Ok(script) => if script@.args.len() != SHORT_HASH_LEN {
                    Err(Halt::Reject(Error::ArgsLenError))
                } else {
                    match answer(s.witness, Query::Witness) {
                        Err(h) => Err(h),
                        Ok(witness) => match parse_spec(witness@) {
                            Err(e) => Err(Halt::Reject(e)),
                            Ok(w) => if blake2b_160(w.script()) != script@.args {
                                Err(Halt::Reject(Error::WitnessHashError))
                            } else {
                                Ok(
                                    Commitment {
                                        input_type: script_view(input_type),
                                        script: script@,
                                        witness: w,
                                    },
                                )
                            },
                        },
                    }
                },
            },
        },
    }
}

/// The amount that the input holds: tokens if it has a type script, else
/// capacity. Cell data too short to hold a token amount does not encode
/// one, and the input is refused for its encoding.
pub open spec fn input_amount(s: Snapshot, input_type: Option<ScriptView>) -> Result<u128, Halt> {
    match input_type {
        Some(_) => match answer(s.input_data, Query::InputData) {
            Err(h) => Err(h),
            Ok(data) => match token_amount_of(data@) {
                Some(amount) => Ok(amount),
                None => Err(Halt::Reject(Error::Encoding)),
            },
        },
        None => match answer(s.input_capacity, Query::InputCapacity) {
            Err(h) => Err(h),
            Ok(capacity) => Ok(capacity as u128),
        },
    }
}

/// The check of the successor cell after the pending HTLC `index` was
/// consumed and `remaining` is left in the channel: the first output runs
/// the same lock on the witness script without that HTLC, and holds what
/// remains. Tokens are held under the type script of the input, next to an
/// unchanged capacity. Where the payment exceeds what the input holds,
/// `remaining` is negative, and no output holds that; nor does an output
/// whose data is too short to hold a token amount hold any.
pub open spec fn continuation(s: Snapshot, c: Commitment, index: int, remaining: int) -> Result<
    (),
    Halt,
> {
    match answer(s.output_lock, Query::OutputLock) {
        Err(h) => Err(h),
        Ok(lock) => if lock@.code_hash != c.script.code_hash || lock@.hash_type
            != c.script.hash_type || lock@.args != blake2b_160(c.witness.successor_script(index)) {
            Err(Halt::Reject(Error::OutputLockError))
        } else {
            match c.input_type {
                Some(udt) => match answer(s.output_capacity, Query::OutputCapacity) {
                    Err(h) => Err(h),
                    Ok(output_capacity) => match answer(s.input_capacity, Query::InputCapacity) {
                        Err(h) => Err(h),
                        Ok(input_capacity) => if output_capacity != input_capacity {
                            Err(Halt::Reject(Error::OutputCapacityError))
                        } else {
                            match answer(s.output_type, Query::OutputType) {
                                Err(h) => Err(h),
                                Ok(output_type) => if script_view(output_type) != Some(udt) {
                                    Err(Halt::Reject(Error::OutputTypeError))
                                } else {
                                    match answer(s.output_data, Query::OutputData) {
                                        Err(h) => Err(h),
                                        Ok(data) => if token_amount_of(data@) matches Some(
                                            amount,
                                        ) && amount == remaining {
                                            Ok(())
                                        } else {
                                            Err(Halt::Reject(Error::OutputUdtAmountError))
                                        },
                                    }
                                },
                            }
                        },
                    },
                },
                None => match answer(s.output_capacity, Query::OutputCapacity) {
                    Err(h) => Err(h),
                    Ok(output_capacity) => if output_capacity != remaining {
                        Err(Halt::Reject(Error::OutputCapacityError))
                    } else {
                        Ok(())
                    },
                },
            }
        },
    }
}

/// Who has to sign when the pending HTLC `index` is consumed.
pub open spec fn htlc_signer(s: Snapshot, c: Commitment, index: int) -> Result<Seq<u8>, Halt> {
    match input_amount(s, c.input_type) {
        Err(h) => Err(h),
        Ok(amount) => match answer(s.input_since, Query::InputSince) {
            Err(h) => Err(h),
            Ok(since) => match settle_spec(c.witness.htlc(index), since, c.witness.preimage()) {
                Err(e) => Err(Halt::Reject(e)),
                Ok(settlement) => match continuation(s, c, index, amount - settlement.payment) {
                    Err(h) => Err(h),
                    Ok(_) => Ok(settlement.pubkey_hash),
                },
            },
        },
    }
}

/// Who has to sign the transaction: the unlock byte selects a settlement or
/// the pending HTLC to consume.
pub open spec fn signer(s: Snapshot, c: Commitment) -> Result<Seq<u8>, Halt> {
    if c.witness.unlock_type() == UNLOCK_SETTLEMENT {
        match answer(s.input_since, Query::InputSince) {
            Err(h) => Err(h),
            Ok(since) => match settlement_signer(c.witness, since) {
                Err(e) => Err(Halt::Reject(e)),
                Ok(pubkey_hash) => Ok(pubkey_hash),
            },
        }
    } else if c.witness.unlock_type() >= c.witness.shape.pending_htlcs {
        Err(Halt::Reject(Error::InvalidUnlockType))
    } else {
        htlc_signer(s, c, c.witness.unlock_type() as int)
    }
}

/// A whole run of the lock on the answers in `s`.
pub open spec fn decide(s: Snapshot) -> Result<AuthCallView, Halt> {
    match commitment(s) {
        Err(h) => Err(h),
        Ok(c) => match answer(s.tx_hash, Query::TxHash) {
            Err(h) => Err(h),
            Ok(message) => match signer(s, c) {
                Err(h) => Err(h),
                Ok(pubkey_hash) => if s.exec_failed {
                    Err(Halt::Reject(Error::AuthError))
                } else {
                    Ok(
                        AuthCallView {
                            signature: c.witness.signature(),
                            message: message@,
                            pubkey_hash,
                        },
                    )
                },
            },
        },
    }
}

/// The next step of the lock on the answers in `s`.
pub open spec fn auth_spec(s: Snapshot) -> StepView {
    match decide(s) {
        Ok(call) => StepView::Exec(call),
        Err(Halt::Load(q)) => StepView::Load(q),
        Err(Halt::Reject(e)) => StepView::Reject(e),
    }
}

/// The commitment behind a decoded witness, as `commitment` puts it
/// together.
spec fn commitment_of(input_type: Option<Script>, script: Script, w: Witness) -> Commitment {
    Commitment { input_type: script_view(input_type), script: script@, witness: w@ }
}

fn check_commitment<'a>(s: &'a Snapshot) -> (checked: Result<
    (&'a Option<Script>, &'a Script, Witness<'a>),
    Halt,
>)
    ensures
        match checked {
            Ok((input_type, script, w)) => commitment(*s) == Ok::<Commitment, Halt>(
                commitment_of(*input_type, *script, w),
            ) && w@.wf(),
            Err(h) => commitment(*s) == Err::<Commitment, Halt>(h),
        },
{
    match s.second_input {
        None => {
            return Err(Halt::Load(Query::SecondInput));
        },
        Some(true) => {
            return Err(Halt::Reject(Error::MultipleInputs));
        },
        Some(false) => {},
    }
    let input_type = read(&s.input_type, Query::InputType)?;
    let script = read(&s.script, Query::Script)?;
    if script.args.len() != SHORT_HASH_LEN {
        return Err(Halt::Reject(Error::ArgsLenError));
    }
    let witness = read(&s.witness, Query::Witness)?;
    let w = match Witness::parse(witness.as_slice()) {
        Ok(w) => w,
        Err(e) => {
            return Err(Halt::Reject(e));
        },
    };
    let hash = short_blake2b(w.script());
    if !bytes_eq(hash.as_slice(), script.args.as_slice()) {
        return Err(Halt::Reject(Error::WitnessHashError));
    }
    Ok((input_type, script, w))
}

fn load_input_amount(s: &Snapshot, input_type: &Option<Script>) -> (amount: Result<u128, Halt>)
    ensures
        amount == input_amount(*s, script_view(*input_type)),
{
    match input_type {
        Some(_) => {
            let data = read(&s.input_data, Query::InputData)?;
            match token_amount(data.as_slice()) {
                Some(amount) => Ok(amount),
                None => Err(Halt::Reject(Error::Encoding)),
            }
        },
        None => {
            let capacity = read(&s.input_capacity, Query::InputCapacity)?;
            Ok(*capacity as u128)
        },
    }
}

fn check_continuation(
    s: &Snapshot,
    input_type: &Option<Script>,
    script: &Script,
    w: &Witness,
    index: usize,
    amount: u128,
    payment: u128,
) -> (checked: Result<(), Halt>)
    requires
        index < w@.shape.pending_htlcs,
    ensures
        checked == continuation(
            *s,
            commitment_of(*input_type, *script, *w),
            index as int,
            amount - payment,
        ),
{
    let remaining = if payment <= amount {
        Some(amount - payment)
    } else {
        None
    };
    let lock = read(&s.output_lock, Query::OutputLock)?;
    let expected = short_blake2b(w.successor_script(index).as_slice());
    if !lock.same_code(script) || !bytes_eq(lock.args.as_slice(), expected.as_slice()) {
        return Err(Halt::Reject(Error::OutputLockError));
    }
    match input_type {
        Some(_) => {
            let output_capacity = read(&s.output_capacity, Query::OutputCapacity)?;
            let input_capacity = read(&s.input_capacity, Query::InputCapacity)?;
            if *output_capacity != *input_capacity {
                return Err(Halt::Reject(Error::OutputCapacityError));
            }
            let output_type = read(&s.output_type, Query::OutputType)?;
            if !same_type(output_type, input_type) {
                return Err(Halt::Reject(Error::OutputTypeError));
            }
            let data = read(&s.output_data, Query::OutputData)?;
            match (token_amount(data.as_slice()), remaining) {
                (Some(output_amount), Some(r)) if output_amount == r => Ok(()),
                _ => Err(Halt::Reject(Error::OutputUdtAmountError)),
            }
        },
        None => {
            let output_capacity = read(&s.output_capacity, Query::OutputCapacity)?;
            match remaining {
                Some(r) if *output_capacity as u128 == r => Ok(()),
                _ => Err(Halt::Reject(Error::OutputCapacityError)),
            }
        },
    }
}

fn check_htlc(
    s: &Snapshot,
    input_type: &Option<Script>,
    script: &Script,
    w: &Witness,
    index: usize,
) -> (signer: Result<Vec<u8>, Halt>)
    requires
        index < w@.shape.pending_htlcs,
    ensures
        bytes_view(signer) == htlc_signer(
            *s,
            commitment_of(*input_type, *script, *w),
            index as int,
        ),
{
    let amount = load_input_amount(s, input_type)?;
    let since = read(&s.input_since, Query::InputSince)?;
    let settlement = match w.htlc(index).settle(*since, w.preimage()) {
        Ok(settlement) => settlement,
        Err(e) => {
            return Err(Halt::Reject(e));
        },
    };
    check_continuation(s, input_type, script, w, index, amount, settlement.payment)?;
    Ok(settlement.pubkey_hash)
}

fn check_signer(s: &Snapshot, input_type: &Option<Script>, script: &Script, w: &Witness) -> (found:
    Result<Vec<u8>, Halt>)
    ensures
        bytes_view(found) == signer(*s, commitment_of(*input_type, *script, *w)),
{
    let unlock_type = w.unlock_type();
    if unlock_type == UNLOCK_SETTLEMENT {
        let since = read(&s.input_since, Query::InputSince)?;
        match w.settle(*since) {
            Ok(pubkey_hash) => Ok(pubkey_hash),
            Err(e) => Err(Halt::Reject(e)),
        }
    } else if unlock_type as usize >= w.pending_htlcs() {
        Err(Halt::Reject(Error::InvalidUnlockType))
    } else {
        check_htlc(s, input_type, script, w, unlock_type as usize)
    }
}

fn run(s: &Snapshot) -> (call: Result<AuthCall, Halt>)
    ensures
        call_view(call) == decide(*s),
{
    let (input_type, script, w) = check_commitment(s)?;
    let message = read(&s.tx_hash, Query::TxHash)?;
    let pubkey_hash = check_signer(s, input_type, script, &w)?;
    if s.exec_failed {
        return Err(Halt::Reject(Error::AuthError));
    }
    Ok(AuthCall { signature: slice_to_vec(w.signature()), message: *message, pubkey_hash })
}

/// Runs the lock as far as the host's answers in `s` reach, and tells the
/// next step.
pub fn auth(s: &Snapshot) -> (step: Step)
    ensures
        step@ == auth_spec(*s),
{
    match run(s) {
        Ok(call) => Step::Exec(call),
        Err(Halt::Load(q)) => Step::Load(q),
        Err(Halt::Reject(e)) => Step::Reject(e),
    }
}

} // verus!
