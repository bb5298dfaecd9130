//! What the script knows of the transaction that it validates.
//!
//! The script learns about the transaction by asking the host, one question
//! at a time. A `Snapshot` records the answers received so far; a question
//! that was not asked yet has the answer `None`.

use vstd::prelude::*;
use vstd::bytes::{spec_u128_from_le_bytes, u128_from_le_bytes};
use vstd::slice::slice_subrange;
use crate::error::{host_failure, Error, HostError};
use crate::hash::bytes_eq;

verus! {

/// Number of bytes at the start of a cell's data that hold its token amount.
pub const UDT_AMOUNT_LEN: usize = 16;

/// A lock or type script.
#[derive(Clone, Debug, PartialEq, Eq)]
pub struct Script {
    pub code_hash: [u8; 32],
    pub hash_type: u8,
    pub args: Vec<u8>,
}

/// A `Script` as a mathematical value.
pub struct ScriptView {
    pub code_hash: Seq<u8>,
    pub hash_type: u8,
    pub args: Seq<u8>,
}

impl View for Script {
    type V = ScriptView;

    open spec fn view(&self) -> ScriptView {
        ScriptView { code_hash: self.code_hash@, hash_type: self.hash_type, args: self.args@ }
    }
}

impl Script {
    /// Whether the two scripts run the same code.
    pub fn same_code(&self, other: &Script) -> (same: bool)
        ensures
            same <==> self@.code_hash == other@.code_hash && self@.hash_type == other@.hash_type,
    {
        bytes_eq(self.code_hash.as_slice(), other.code_hash.as_slice()) && self.hash_type
            == other.hash_type
    }

    /// Whether the two scripts are the same script.
    pub fn same(&self, other: &Script) -> (same: bool)
        ensures
            same <==> self@ == other@,
    {
        self.same_code(other) && bytes_eq(self.args.as_slice(), other.args.as_slice())
    }
}

/// The view of an optional script.
pub open spec fn script_view(script: Option<Script>) -> Option<ScriptView> {
    match script {
        Some(s) => Some(s@),
        None => None,
    }
}

/// Whether two optional scripts are both absent or the same script.
pub fn same_type(a: &Option<Script>, b: &Option<Script>) -> (same: bool)
    ensures
        same <==> script_view(*a) == script_view(*b),
{
    match (a, b) {
        (Some(x), Some(y)) => x.same(y),
        (None, None) => true,
        _ => false,
    }
}

/// The token amount that a cell's data starts with.
pub open spec fn udt_amount_of(data: Seq<u8>) -> u128 {
    spec_u128_from_le_bytes(data.subrange(0, UDT_AMOUNT_LEN as int))
}

/// Reads the token amount at the start of a cell's data.
pub fn udt_amount(data: &[u8]) -> (amount: u128)
    requires
        data@.len() >= UDT_AMOUNT_LEN,
    ensures
        amount == udt_amount_of(data@),
{
    u128_from_le_bytes(slice_subrange(data, 0, UDT_AMOUNT_LEN))
}

/// The token amount that a cell's data holds, if the data is long enough to
/// hold one.
pub open spec fn token_amount_of(data: Seq<u8>) -> Option<u128> {
    if data.len() < UDT_AMOUNT_LEN {
        None
    } else {
        Some(udt_amount_of(data))
    }
}

/// Reads the token amount of a cell, if its data is long enough to hold
/// one.
pub fn token_amount(data: &[u8]) -> (amount: Option<u128>)
    ensures
        amount == token_amount_of(data@),
{
    if data.len() < UDT_AMOUNT_LEN {
        None
    } else {
        Some(udt_amount(data))
    }
}

/// A question to the host.
#[derive(Clone, Copy, Debug, PartialEq, Eq, Structural)]
pub enum Query {
    /// Is there a second input in the script group?
    SecondInput,
    /// The type script of the input.
    InputType,
    /// The lock script that is running.
    Script,
    /// The witness of the input.
    Witness,
    /// The hash of the transaction.
    TxHash,
    /// The time lock of the input.
    InputSince,
    /// The data of the input cell.
    InputData,
    /// The capacity of the input cell.
    InputCapacity,
    /// The lock script of the first output.
    OutputLock,
    /// The capacity of the first output.
    OutputCapacity,
    /// The type script of the first output.
    OutputType,
    /// The data of the first output.
    OutputData,
}

/// The host's answers so far. "The input" is the first input of the script
/// group, "the output" the first output of the transaction.
#[derive(Clone, Debug)]
pub struct Snapshot {
    pub second_input: Option<bool>,
    pub input_type: Option<Result<Option<Script>, HostError>>,
    pub script: Option<Result<Script, HostError>>,
    pub witness: Option<Result<Vec<u8>, HostError>>,
    pub tx_hash: Option<Result<[u8; 32], HostError>>,
    pub input_since: Option<Result<u64, HostError>>,
    pub input_data: Option<Result<Vec<u8>, HostError>>,
    pub input_capacity: Option<Result<u64, HostError>>,
    pub output_lock: Option<Result<Script, HostError>>,
    pub output_capacity: Option<Result<u64, HostError>>,
    pub output_type: Option<Result<Option<Script>, HostError>>,
    pub output_data: Option<Result<Vec<u8>, HostError>>,
    /// Whether the signature verifier was started and the start failed.
    pub exec_failed: bool,
}

/// What the host did on behalf of the script: an answer to a question, or
/// the failed start of the signature verifier.
#[derive(Debug)]
pub enum Event {
    /// Whether the script group holds a second input.
    SecondInput(bool),
    /// The type script of the input, if it has one.
    InputType(Result<Option<Script>, HostError>),
    /// The lock script that is running.
    Script(Result<Script, HostError>),
    /// The witness of the input.
    Witness(Result<Vec<u8>, HostError>),
    /// The hash of the transaction.
    TxHash(Result<[u8; 32], HostError>),
    /// The time lock of the input.
    InputSince(Result<u64, HostError>),
    /// The data of the input cell.
    InputData(Result<Vec<u8>, HostError>),
    /// The capacity of the input cell.
    InputCapacity(Result<u64, HostError>),
    /// The lock script of the first output.
    OutputLock(Result<Script, HostError>),
    /// The capacity of the first output.
    OutputCapacity(Result<u64, HostError>),
    /// The type script of the first output, if it has one.
    OutputType(Result<Option<Script>, HostError>),
    /// The data of the first output.
    OutputData(Result<Vec<u8>, HostError>),
    /// The signature verifier could not be started.
    ExecFailed,
}

impl Event {
    /// The question that the event answers, if it answers one.
    pub open spec fn query(self) -> Option<Query> {
        match self {
            Event::SecondInput(_) => Some(Query::SecondInput),
            Event::InputType(_) => Some(Query::InputType),
            Event::Script(_) => Some(Query::Script),
            Event::Witness(_) => Some(Query::Witness),
            Event::TxHash(_) => Some(Query::TxHash),
            Event::InputSince(_) => Some(Query::InputSince),
            Event::InputData(_) => Some(Query::InputData),
            Event::InputCapacity(_) => Some(Query::InputCapacity),
            Event::OutputLock(_) => Some(Query::OutputLock),
            Event::OutputCapacity(_) => Some(Query::OutputCapacity),
            Event::OutputType(_) => Some(Query::OutputType),
            Event::OutputData(_) => Some(Query::OutputData),
            Event::ExecFailed => None,
        }
    }
}

/// Why the script cannot go on to the signature check yet, or at all.
#[derive(Clone, Copy, Debug, PartialEq, Eq, Structural)]
pub enum Halt {
    /// The host has to answer this question first.
    Load(Query),
    /// The cell stays locked.
    Reject(Error),
}

/// The answer in `slot`, or why there is none: the question `query` is still
/// open, or the host failed to answer it.
pub open spec fn answer<T>(slot: Option<Result<T, HostError>>, query: Query) -> Result<T, Halt> {
    match slot {
        None => Err(Halt::Load(query)),
        Some(Err(e)) => Err(Halt::Reject(host_failure(e))),
        Some(Ok(v)) => Ok(v),
    }
}

impl Snapshot {
    /// A snapshot without any answer.
    pub fn new() -> (snapshot: Snapshot)
        ensures
            snapshot.second_input.is_none(),
            snapshot.input_type.is_none(),
            snapshot.script.is_none(),
            snapshot.witness.is_none(),
            snapshot.tx_hash.is_none(),
            snapshot.input_since.is_none(),
            snapshot.input_data.is_none(),
            snapshot.input_capacity.is_none(),
            snapshot.output_lock.is_none(),
            snapshot.output_capacity.is_none(),
            snapshot.output_type.is_none(),
            snapshot.output_data.is_none(),
            !snapshot.exec_failed,
    {
        Snapshot {
            second_input: None,
            input_type: None,
            script: None,
            witness: None,
            tx_hash: None,
            input_since: None,
            input_data: None,
            input_capacity: None,
            output_lock: None,
            output_capacity: None,
            output_type: None,
            output_data: None,
            exec_failed: false,
        }
    }

    /// The snapshot after `event`.
    pub open spec fn with(self, event: Event) -> Snapshot {
        match event {
            Event::SecondInput(a) => Snapshot { second_input: Some(a), ..self },
            Event::InputType(a) => Snapshot { input_type: Some(a), ..self },
            Event::Script(a) => Snapshot { script: Some(a), ..self },
            Event::Witness(a) => Snapshot { witness: Some(a), ..self },
            Event::TxHash(a) => Snapshot { tx_hash: Some(a), ..self },
            Event::InputSince(a) => Snapshot { input_since: Some(a), ..self },
            Event::InputData(a) => Snapshot { input_data: Some(a), ..self },
            Event::InputCapacity(a) => Snapshot { input_capacity: Some(a), ..self },
            Event::OutputLock(a) => Snapshot { output_lock: Some(a), ..self },
            Event::OutputCapacity(a) => Snapshot { output_capacity: Some(a), ..self },
            Event::OutputType(a) => Snapshot { output_type: Some(a), ..self },
            Event::OutputData(a) => Snapshot { output_data: Some(a), ..self },
            Event::ExecFailed => Snapshot { exec_failed: true, ..self },
        }
    }

    /// Records what the host did.
    pub fn record(&mut self, event: Event)
        ensures
            *final(self) == old(self).with(event),
    {
        match event {
            Event::SecondInput(a) => {
                self.second_input = Some(a);
            },
            Event::InputType(a) => {
                self.input_type = Some(a);
            },
            Event::Script(a) => {
                self.script = Some(a);
            },
            Event::Witness(a) => {
                self.witness = Some(a);
            },
            Event::TxHash(a) => {
                self.tx_hash = Some(a);
            },
            Event::InputSince(a) => {
                self.input_since = Some(a);
            },
            Event::InputData(a) => {
                self.input_data = Some(a);
            },
            Event::InputCapacity(a) => {
                self.input_capacity = Some(a);
            },
            Event::OutputLock(a) => {
                self.output_lock = Some(a);
            },
            Event::OutputCapacity(a) => {
                self.output_capacity = Some(a);
            },
            Event::OutputType(a) => {
                self.output_type = Some(a);
            },
            Event::OutputData(a) => {
                self.output_data = Some(a);
            },
            Event::ExecFailed => {
                self.exec_failed = true;
            },
        }
    }
}

/// Reads the answer in `slot`.
pub(crate) fn read<T>(slot: &Option<Result<T, HostError>>, query: Query) -> (got: Result<&T, Halt>)
    ensures
        match got {
            Ok(v) => answer(*slot, query) == Ok::<T, Halt>(*v),
            Err(h) => answer(*slot, query) == Err::<T, Halt>(h),
        },
{
    match slot {
        None => Err(Halt::Load(query)),
        Some(Err(e)) => Err(Halt::Reject(Error::from(*e))),
        Some(Ok(v)) => Ok(v),
    }
}

} // verus!
