//! The entry points of the two lock scripts, seen from the program that
//! embeds them.

use vstd::prelude::*;
use crate::commitment;
use crate::encoding::{hex_lower, to_hex};
use crate::funding;
use crate::snapshot::{Query, Snapshot};
use crate::step::{AuthCall, AuthCallView, Step, StepView};

verus! {

/// The signature scheme that the verifier is asked to apply.
pub const AUTH_ALGORITHM_ID: u8 = 0;

/// What the embedding program has to do next.
#[derive(Clone, Debug, PartialEq, Eq)]
pub enum Action {
    /// Ask the host, record the answer in the snapshot, and enter again.
    Load(Query),
    /// Replace the running program by the signature verifier, with these
    /// arguments. If that fails, record the failure and enter again.
    Exec(Vec<String>),
    /// End the script with this exit code.
    Exit(i8),
}

/// An `Action` as a mathematical value.
pub enum ActionView {
    Load(Query),
    Exec(Seq<Seq<char>>),
    Exit(i8),
}

/// The texts of a list of strings.
pub open spec fn texts(list: Seq<String>) -> Seq<Seq<char>> {
    list.map_values(|s: String| s@)
}

impl View for Action {
    type V = ActionView;

    open spec fn view(&self) -> ActionView {
        match self {
            Action::Load(q) => ActionView::Load(*q),
            Action::Exec(argv) => ActionView::Exec(texts(argv@)),
            Action::Exit(code) => ActionView::Exit(*code),
        }
    }
}

/// The arguments of the signature verifier for `call`: the scheme, the
/// signature, the message and the public-key hash, each as hexadecimal text.
pub open spec fn argv_spec(call: AuthCallView) -> Seq<Seq<char>> {
    seq![
        hex_lower(seq![AUTH_ALGORITHM_ID]),
        hex_lower(call.signature),
        hex_lower(call.message),
        hex_lower(call.pubkey_hash),
    ]
}

/// The action that a step of the lock asks for. A refusal ends the script
/// with the exit code of its reason.
pub open spec fn action_of(step: StepView) -> ActionView {
    match step {
        StepView::Load(q) => ActionView::Load(q),
        StepView::Exec(call) => ActionView::Exec(argv_spec(call)),
        StepView::Reject(e) => ActionView::Exit(e.spec_code()),
    }
}

impl AuthCall {
    /// The arguments with which the signature verifier is started.
    pub fn argv(&self) -> (argv: Vec<String>)
        ensures
            texts(argv@) == argv_spec(self@),
    {
        let id: [u8; 1] = [AUTH_ALGORITHM_ID];
        let mut argv: Vec<String> = Vec::new();
        argv.push(to_hex(id.as_slice()));
        argv.push(to_hex(self.signature.as_slice()));
        argv.push(to_hex(self.message.as_slice()));
        argv.push(to_hex(self.pubkey_hash.as_slice()));
        assert(id@ =~= seq![AUTH_ALGORITHM_ID]);
        assert(texts(argv@) =~= argv_spec(self@));
        argv
    }
}

/// The action that a step of a lock asks for.
pub fn action_for(step: Step) -> (action: Action)
    ensures
        action@ == action_of(step@),
{
    match step {
        Step::Load(q) => Action::Load(q),
        Step::Exec(call) => Action::Exec(call.argv()),
        Step::Reject(e) => Action::Exit(e.code()),
    }
}

/// Enters the commitment lock with the host's answers so far and tells the
/// embedding program what to do next.
pub fn program_entry(s: &Snapshot) -> (action: Action)
    ensures
        action@ == action_of(commitment::auth_spec(*s)),
        action matches Action::Exit(code) ==> 1 <= code <= 18,
{
    action_for(commitment::auth(s))
}

/// Enters the funding lock with the host's answers so far and tells the
/// embedding program what to do next.
pub fn funding_entry(s: &Snapshot) -> (action: Action)
    ensures
        action@ == action_of(funding::auth_spec(*s)),
        action matches Action::Exit(code) ==> 1 <= code <= 18,
{
    action_for(funding::auth(s))
}

} // verus!
