//! What holds of every run of the two locks.

use vstd::prelude::*;
use crate::commitment::{
    auth_spec, commitment, continuation, htlc_signer, input_amount, signer, Commitment,
};
use crate::entry::{action_of, ActionView};
use crate::error::{Error, HostError};
use crate::funding;
use crate::hash::{blake2b_160, blake2b_256_digest, SHORT_HASH_LEN};
use crate::htlc::{
    preimage_opens, record_amount, record_expiry, record_local_pubkey_hash,
    record_remote_pubkey_hash, record_type, settle_spec, HtlcType, SettlementView,
};
use crate::since::{
    epoch_index, epoch_length, epoch_number, is_absolute, metric, since_ge, value, LOCK_BY_EPOCH,
    LOCK_BY_TIMESTAMP, METRIC_TYPE_FLAG_MASK,
};
use crate::snapshot::{udt_amount_of, Event, Halt, Query, Script, Snapshot};
use crate::step::{AuthCallView, StepView};
use crate::witness::{
    empty_witness_args, parse_spec, script_without, shape_of, Shape, WitnessView,
};

verus! {

/// Whether the host has answered the question `query`.
pub open spec fn answered(s: Snapshot, query: Query) -> bool {
    match query {
        Query::SecondInput => s.second_input.is_some(),
        Query::InputType => s.input_type.is_some(),
        Query::Script => s.script.is_some(),
        Query::Witness => s.witness.is_some(),
        Query::TxHash => s.tx_hash.is_some(),
        Query::InputSince => s.input_since.is_some(),
        Query::InputData => s.input_data.is_some(),
        Query::InputCapacity => s.input_capacity.is_some(),
        Query::OutputLock => s.output_lock.is_some(),
        Query::OutputCapacity => s.output_capacity.is_some(),
        Query::OutputType => s.output_type.is_some(),
        Query::OutputData => s.output_data.is_some(),
    }
}

/// The lock asks nothing twice: a question that it raises has no answer in
/// the snapshot yet.
pub proof fn theorem_asks_only_what_is_open(s: Snapshot, query: Query)
    requires
        auth_spec(s) == StepView::Load(query),
    ensures
        !answered(s, query),
{
}

/// With every question answered the lock raises no further one.
pub proof fn theorem_decides_on_full_snapshot(s: Snapshot)
    requires
        forall|q: Query| answered(s, q),
    ensures
        !(auth_spec(s) is Load),
{
    if let StepView::Load(q) = auth_spec(s) {
        theorem_asks_only_what_is_open(s, q);
    }
}

/// Whether `later` holds every answer of `earlier`, and more or not.
pub open spec fn extends(earlier: Snapshot, later: Snapshot) -> bool {
    &&& earlier.second_input.is_some() ==> later.second_input == earlier.second_input
    &&& earlier.input_type.is_some() ==> later.input_type == earlier.input_type
    &&& earlier.script.is_some() ==> later.script == earlier.script
    &&& earlier.witness.is_some() ==> later.witness == earlier.witness
    &&& earlier.tx_hash.is_some() ==> later.tx_hash == earlier.tx_hash
    &&& earlier.input_since.is_some() ==> later.input_since == earlier.input_since
    &&& earlier.input_data.is_some() ==> later.input_data == earlier.input_data
    &&& earlier.input_capacity.is_some() ==> later.input_capacity == earlier.input_capacity
    &&& earlier.output_lock.is_some() ==> later.output_lock == earlier.output_lock
    &&& earlier.output_capacity.is_some() ==> later.output_capacity == earlier.output_capacity
    &&& earlier.output_type.is_some() ==> later.output_type == earlier.output_type
    &&& earlier.output_data.is_some() ==> later.output_data == earlier.output_data
    &&& later.exec_failed == earlier.exec_failed
}

/// Recording an answer to an open question keeps every earlier answer and
/// closes the question.
pub proof fn theorem_record_extends(s: Snapshot, event: Event, query: Query)
    requires
        event.query() == Some(query),
        !answered(s, query),
    ensures
        extends(s, s.with(event)),
        answered(s.with(event), query),
        forall|q: Query| answered(s, q) ==> answered(s.with(event), q),
{
}

/// A verdict stands: once the lock refuses or hands over, no further answer
/// of the host changes that. Answers that the lock did not ask for are not
/// read.
pub proof fn theorem_verdict_stands(earlier: Snapshot, later: Snapshot)
    requires
        extends(earlier, later),
        !(auth_spec(earlier) is Load),
    ensures
        auth_spec(later) == auth_spec(earlier),
{
    let c = commitment(earlier)->Ok_0;
    assert(commitment(later) == commitment(earlier));
    if signer(earlier, c) is Ok {
        assert(signer(later, c) == signer(earlier, c));
    }
}

/// A verdict of the funding lock stands as well.
pub proof fn theorem_funding_verdict_stands(earlier: Snapshot, later: Snapshot)
    requires
        extends(earlier, later),
        !(funding::auth_spec(earlier) is Load),
    ensures
        funding::auth_spec(later) == funding::auth_spec(earlier),
{
}

/// The reserved failure is never reported, and the funding lock reports
/// host failures, a second input, a bad script argument, a bad witness
/// length, a bad witness hash and a failed start of the verifier, and no
/// others.
pub proof fn theorem_reported_failures(s: Snapshot)
    ensures
        auth_spec(s) != StepView::Reject(Error::InvalidHtlcType),
        funding::auth_spec(s) matches StepView::Reject(e) ==> e.spec_code() <= 5 || e.spec_code()
            == 9 || e.spec_code() == 10 || e.spec_code() == 12 || e.spec_code() == 18,
{
}

/// A second input in the script group is refused, whatever else the
/// transaction holds.
pub proof fn theorem_second_input_rejected(s: Snapshot)
    requires
        s.second_input == Some(true),
    ensures
        auth_spec(s) == StepView::Reject(Error::MultipleInputs),
{
}

/// Whether the run on `s` gets as far as the script argument: the input is
/// alone in its group and the host delivered its type script and the lock
/// script.
pub open spec fn reaches_script(s: Snapshot, script: Script) -> bool {
    &&& s.second_input == Some(false)
    &&& s.input_type matches Some(Ok(_))
    &&& s.script == Some(Ok::<Script, HostError>(script))
}

/// Whether the run on `s` gets as far as the witness: it reaches the script
/// argument, which is a short hash, and the host delivered the witness.
pub open spec fn reaches_witness(s: Snapshot, script: Script, witness: Vec<u8>) -> bool {
    &&& reaches_script(s, script)
    &&& script@.args.len() == SHORT_HASH_LEN
    &&& s.witness == Some(Ok::<Vec<u8>, HostError>(witness))
}

/// A script argument that is not 20 bytes long is refused.
pub proof fn theorem_args_len_rejected(s: Snapshot, script: Script)
    requires
        reaches_script(s, script),
        script@.args.len() != 20,
    ensures
        auth_spec(s) == StepView::Reject(Error::ArgsLenError),
{
}

/// A witness that does not start with the empty witness arguments is
/// refused, also where it is too short to hold them.
pub proof fn theorem_sentinel_rejected(s: Snapshot, script: Script, witness: Vec<u8>)
    requires
        reaches_witness(s, script, witness),
        witness@.len() < 16 || witness@.subrange(0, 16) != empty_witness_args(),
    ensures
        auth_spec(s) == StepView::Reject(Error::EmptyWitnessArgsError),
{
}

/// The lengths with a shape are exactly those of a base, a number of HTLC
/// records, an unlock byte with a signature, and a preimage or none; and
/// the shape of such a length is that number and that choice.
pub proof fn theorem_shape_is_length_equation(len: int, pending_htlcs: usize, has_preimage: bool)
    requires
        0 <= len <= usize::MAX,
    ensures
        len == 48 + 85 * pending_htlcs + 66 + (if has_preimage {
            32int
        } else {
            0
        }) <==> shape_of(len) == Some(Shape { pending_htlcs, has_preimage }),
{
}

/// A witness whose body has a length without a shape is refused.
pub proof fn theorem_witness_len_rejected(s: Snapshot, script: Script, witness: Vec<u8>)
    requires
        reaches_witness(s, script, witness),
        witness@.len() >= 16,
        witness@.subrange(0, 16) == empty_witness_args(),
        shape_of(witness@.len() - 16).is_none(),
    ensures
        auth_spec(s) == StepView::Reject(Error::WitnessLenError),
{
}

/// A witness script that does not hash to the script argument is refused.
pub proof fn theorem_witness_hash_rejected(
    s: Snapshot,
    script: Script,
    witness: Vec<u8>,
    w: WitnessView,
)
    requires
        reaches_witness(s, script, witness),
        parse_spec(witness@) == Ok::<WitnessView, Error>(w),
        blake2b_160(w.script()) != script@.args,
    ensures
        auth_spec(s) == StepView::Reject(Error::WitnessHashError),
{
}

/// Whether the run on `s` gets as far as the unlock byte: the witness is the
/// one that the cell commits to, and the host delivered the transaction
/// hash.
pub open spec fn reaches_unlock(s: Snapshot, c: Commitment, message: Seq<u8>) -> bool {
    &&& commitment(s) == Ok::<Commitment, Halt>(c)
    &&& s.tx_hash matches Some(Ok(hash)) && hash@ == message
}

/// The call of the verifier that ends a run on `s` with the signer
/// `pubkey_hash`, unless an earlier call could not be started.
pub open spec fn call_for(s: Snapshot, c: Commitment, message: Seq<u8>, pubkey_hash: Seq<u8>)
    -> StepView {
    if s.exec_failed {
        StepView::Reject(Error::AuthError)
    } else {
        StepView::Exec(AuthCallView { signature: c.witness.signature(), message, pubkey_hash })
    }
}

/// Revocation: a settlement without a time lock on the input is left to the
/// signature of the revocation key over the transaction hash.
pub proof fn theorem_revocation(s: Snapshot, c: Commitment, message: Seq<u8>)
    requires
        reaches_unlock(s, c, message),
        c.witness.unlock_type() == 0xFF,
        s.input_since == Some(Ok::<u64, HostError>(0)),
    ensures
        auth_spec(s) == call_for(s, c, message, c.witness.revocation_pubkey_hash()),
{
}

/// Delayed settlement: a settlement with a time lock on the input is left to
/// the signature of the local delay key if the time lock has reached the
/// delay, and refused if not.
pub proof fn theorem_local_delay(s: Snapshot, c: Commitment, message: Seq<u8>, since: u64)
    requires
        reaches_unlock(s, c, message),
        c.witness.unlock_type() == 0xFF,
        s.input_since == Some(Ok::<u64, HostError>(since)),
        since != 0,
    ensures
        auth_spec(s) == if since_ge(since, c.witness.delay()) {
            call_for(s, c, message, c.witness.local_delay_pubkey_hash())
        } else {
            StepView::Reject(Error::InvalidSince)
        },
{
}

/// Time locks of different kinds are not in order: nothing is reached
/// unless the two agree on the relative flag and on the metric.
pub proof fn theorem_since_needs_same_kind(since: u64, bound: u64)
    requires
        since_ge(since, bound),
    ensures
        is_absolute(since) == is_absolute(bound),
        metric(since) == metric(bound),
{
}

/// Time locks of one kind are in order: of two locks that agree on the
/// relative flag and on a known metric, one has reached the other.
pub proof fn theorem_since_total(a: u64, b: u64)
    requires
        is_absolute(a) == is_absolute(b),
        metric(a) == metric(b),
        metric(a) != METRIC_TYPE_FLAG_MASK,
    ensures
        since_ge(a, b) || since_ge(b, a),
{
    let m = metric(a);
    assert(m == 0 || m == LOCK_BY_EPOCH || m == LOCK_BY_TIMESTAMP || m == METRIC_TYPE_FLAG_MASK)
        by (bit_vector)
        requires
            m == a & 0x6000_0000_0000_0000u64,
    ;
}

/// Fractions with positive denominators are in order transitively.
proof fn lemma_fractions_chain(ia: int, la: int, ib: int, lb: int, ic: int, lc: int)
    by (nonlinear_arith)
    requires
        0 <= ia,
        0 <= ib,
        0 <= ic,
        0 < la,
        0 < lb,
        0 < lc,
        ia * lb >= ib * la,
        ib * lc >= ic * lb,
    ensures
        ia * lc >= ic * la,
{
    assert(ia * lb * lc >= ib * la * lc);
    assert(ib * lc * la >= ic * lb * la);
    assert(ib * la * lc == ib * lc * la);
    assert((ia * lc) * lb >= (ic * la) * lb);
}

/// What has reached a bound has reached whatever the bound has reached.
pub proof fn theorem_since_transitive(a: u64, b: u64, c: u64)
    requires
        since_ge(a, b),
        since_ge(b, c),
    ensures
        since_ge(a, c),
{
    if metric(a) == LOCK_BY_EPOCH && epoch_number(value(a)) == epoch_number(value(c)) {
        lemma_fractions_chain(
            epoch_index(value(a)) as int,
            epoch_length(value(a)) as int,
            epoch_index(value(b)) as int,
            epoch_length(value(b)) as int,
            epoch_index(value(c)) as int,
            epoch_length(value(c)) as int,
        );
    }
}

/// A time lock has reached itself, if its metric is a known one.
pub proof fn theorem_since_reflexive(a: u64)
    requires
        metric(a) != METRIC_TYPE_FLAG_MASK,
    ensures
        since_ge(a, a),
{
    theorem_since_total(a, a);
}

/// An unlock byte that names neither a settlement nor a pending HTLC is
/// refused.
pub proof fn theorem_unlock_type_rejected(s: Snapshot, c: Commitment, message: Seq<u8>)
    requires
        reaches_unlock(s, c, message),
        c.witness.unlock_type() != 0xFF,
        c.witness.unlock_type() >= c.witness.shape.pending_htlcs,
    ensures
        auth_spec(s) == StepView::Reject(Error::InvalidUnlockType),
{
}

/// The successor script keeps the base and every HTLC record but the
/// consumed one, in their order.
pub proof fn theorem_successor_keeps_the_rest(w: WitnessView, index: int)
    requires
        w.wf(),
        0 <= index < w.shape.pending_htlcs,
    ensures
        w.successor_script(index).len() == w.script().len() - 85,
        w.successor_script(index).subrange(0, 48) == w.script().subrange(0, 48),
        forall|i: int|
            0 <= i < index ==> #[trigger] w.successor_script(index).subrange(
                48 + 85 * i,
                48 + 85 * (i + 1),
            ) == w.htlc(i),
        forall|i: int|
            index <= i < w.shape.pending_htlcs - 1 ==> #[trigger] w.successor_script(
                index,
            ).subrange(48 + 85 * i, 48 + 85 * (i + 1)) == w.htlc(i + 1),
{
    let next = w.successor_script(index);
    assert(next.subrange(0, 48) =~= w.script().subrange(0, 48));
    assert forall|i: int| 0 <= i < index implies #[trigger] next.subrange(
        48 + 85 * i,
        48 + 85 * (i + 1),
    ) == w.htlc(i) by {
        assert(next.subrange(48 + 85 * i, 48 + 85 * (i + 1)) =~= w.htlc(i));
    }
    assert forall|i: int| index <= i < w.shape.pending_htlcs - 1 implies #[trigger] next.subrange(
        48 + 85 * i,
        48 + 85 * (i + 1),
    ) == w.htlc(i + 1) by {
        assert(next.subrange(48 + 85 * i, 48 + 85 * (i + 1)) =~= w.htlc(i + 1));
    }
}

/// The successor cell can be spent in its turn: a witness that carries the
/// successor script decodes to one pending HTLC fewer, and its script is the
/// successor script, to whose hash the successor cell commits.
pub proof fn theorem_successor_decodes(w: WitnessView, index: int, unlock: Seq<u8>)
    requires
        w.wf(),
        w.body.len() <= usize::MAX,
        0 <= index < w.shape.pending_htlcs,
        unlock.len() == 66 || unlock.len() == 66 + 32,
    ensures
        parse_spec(empty_witness_args() + w.successor_script(index) + unlock) matches Ok(next)
            && next.wf() && next.shape.pending_htlcs == w.shape.pending_htlcs - 1 && next.script()
            == w.successor_script(index),
{
    let witness = empty_witness_args() + w.successor_script(index) + unlock;
    assert(witness.subrange(0, 16) =~= empty_witness_args());
    let body = witness.skip(16);
    assert(body =~= w.successor_script(index) + unlock);
    let n = (w.shape.pending_htlcs - 1) as usize;
    theorem_shape_is_length_equation(body.len() as int, n, unlock.len() != 66);
    let next = parse_spec(witness)->Ok_0;
    assert(next.script() =~= w.successor_script(index));
}

/// Consuming an HTLC: when the lock leaves the decision to the verifier, the
/// first output runs the lock of the input on the hash of the successor
/// script, and holds the amount of the input less the payment that the
/// settlement sends out of the channel.
pub proof fn theorem_continuation(s: Snapshot, c: Commitment, index: int, pubkey_hash: Seq<u8>)
    requires
        htlc_signer(s, c, index) == Ok::<Seq<u8>, Halt>(pubkey_hash),
    ensures
        s.input_since matches Some(Ok(since)) && settle_spec(
            c.witness.htlc(index),
            since,
            c.witness.preimage(),
        ) matches Ok(settlement) && input_amount(s, c.input_type) matches Ok(amount) && {
            &&& pubkey_hash == settlement.pubkey_hash
            &&& s.output_lock matches Some(Ok(lock)) && lock@.code_hash == c.script.code_hash
                && lock@.hash_type == c.script.hash_type && lock@.args == blake2b_160(
                script_without(c.witness.script(), index),
            )
            &&& s.output_capacity matches Some(Ok(capacity)) && match c.input_type {
                Some(udt) => {
                    &&& s.input_capacity == Some(Ok::<u64, HostError>(capacity))
                    &&& s.output_type matches Some(Ok(Some(ty))) && ty@ == udt
                    &&& s.output_data matches Some(Ok(data)) && data@.len() >= 16
                        && udt_amount_of(data@) == amount - settlement.payment
                },
                None => capacity == amount - settlement.payment,
            }
        },
{
}

/// Whether the run on `s` gets as far as consuming the pending HTLC that
/// the unlock byte names.
pub open spec fn reaches_htlc(s: Snapshot, c: Commitment, message: Seq<u8>) -> bool {
    &&& reaches_unlock(s, c, message)
    &&& c.witness.unlock_type() != 0xFF
    &&& c.witness.unlock_type() < c.witness.shape.pending_htlcs
}

/// An input under a type script whose data is too short to hold a token
/// amount is refused for its encoding.
pub proof fn theorem_short_input_data_rejected(
    s: Snapshot,
    c: Commitment,
    message: Seq<u8>,
    data: Vec<u8>,
)
    requires
        reaches_htlc(s, c, message),
        c.input_type is Some,
        s.input_data == Some(Ok::<Vec<u8>, HostError>(data)),
        data@.len() < 16,
    ensures
        auth_spec(s) == StepView::Reject(Error::Encoding),
{
}

/// A successor cell whose data is too short to hold a token amount holds
/// no tokens: the check of the successor never passes on it.
pub proof fn theorem_short_output_data_never_passes(
    s: Snapshot,
    c: Commitment,
    index: int,
    remaining: int,
    data: Vec<u8>,
)
    requires
        c.input_type is Some,
        s.output_data == Some(Ok::<Vec<u8>, HostError>(data)),
        data@.len() < 16,
    ensures
        !(continuation(s, c, index, remaining) is Ok),
{
}

/// Where lock, capacity and type script of the successor cell are as they
/// have to be, data too short to hold a token amount is refused as a wrong
/// amount is.
pub proof fn theorem_short_output_data_rejected(
    s: Snapshot,
    c: Commitment,
    index: int,
    remaining: int,
    data: Vec<u8>,
)
    requires
        c.input_type matches Some(udt) && s.output_type matches Some(Ok(Some(ty))) && ty@ == udt,
        s.output_lock matches Some(Ok(lock)) && lock@.code_hash == c.script.code_hash
            && lock@.hash_type == c.script.hash_type && lock@.args == blake2b_160(
            script_without(c.witness.script(), index),
        ),
        s.output_capacity matches Some(Ok(capacity)) && s.input_capacity == Some(
            Ok::<u64, HostError>(capacity),
        ),
        s.output_data == Some(Ok::<Vec<u8>, HostError>(data)),
        data@.len() < 16,
    ensures
        continuation(s, c, index, remaining) == Err::<(), Halt>(
            Halt::Reject(Error::OutputUdtAmountError),
        ),
{
}

/// Claims: without a time lock on the input an HTLC is consumed only with
/// the preimage of its payment hash. A missing or wrong preimage is refused,
/// and nothing is paid then.
pub proof fn theorem_claim_needs_preimage(record: Seq<u8>, preimage: Option<Seq<u8>>)
    ensures
        !preimage_opens(record, preimage) ==> settle_spec(record, 0, preimage) == Err::<
            SettlementView,
            Error,
        >(Error::PreimageError),
        preimage_opens(record, preimage) ==> settle_spec(record, 0, preimage) == Ok::<
            SettlementView,
            Error,
        >(
            match record_type(record) {
                HtlcType::Offered => SettlementView {
                    pubkey_hash: record_remote_pubkey_hash(record),
                    payment: record_amount(record),
                },
                HtlcType::Received => SettlementView {
                    pubkey_hash: record_local_pubkey_hash(record),
                    payment: 0,
                },
            },
        ),
{
}

/// Refunds: with a time lock on the input an HTLC is consumed only once the
/// time lock has reached its expiry; before, and with a time lock of another
/// kind, the refund is refused.
pub proof fn theorem_refund_needs_expiry(record: Seq<u8>, since: u64, preimage: Option<Seq<u8>>)
    requires
        since != 0,
    ensures
        !since_ge(since, record_expiry(record)) ==> settle_spec(record, since, preimage) == Err::<
            SettlementView,
            Error,
        >(Error::InvalidSince),
        since_ge(since, record_expiry(record)) ==> settle_spec(record, since, preimage) == Ok::<
            SettlementView,
            Error,
        >(
            match record_type(record) {
                HtlcType::Offered => SettlementView {
                    pubkey_hash: record_local_pubkey_hash(record),
                    payment: 0,
                },
                HtlcType::Received => SettlementView {
                    pubkey_hash: record_remote_pubkey_hash(record),
                    payment: record_amount(record),
                },
            },
        ),
{
}

/// A failed claim or refund ends the run: when consuming the pending HTLC
/// named by the unlock byte is refused, so is the transaction, for the same
/// reason.
pub proof fn theorem_settlement_failure_rejects(
    s: Snapshot,
    c: Commitment,
    message: Seq<u8>,
    since: u64,
    reason: Error,
)
    requires
        reaches_unlock(s, c, message),
        c.witness.unlock_type() < c.witness.shape.pending_htlcs,
        c.witness.unlock_type() != 0xFF,
        input_amount(s, c.input_type) is Ok,
        s.input_since == Some(Ok::<u64, HostError>(since)),
        settle_spec(c.witness.htlc(c.witness.unlock_type() as int), since, c.witness.preimage())
            == Err::<SettlementView, Error>(reason),
    ensures
        auth_spec(s) == StepView::Reject(reason),
{
}

/// The funding lock asks nothing twice either.
pub proof fn theorem_funding_asks_only_what_is_open(s: Snapshot, query: Query)
    requires
        funding::auth_spec(s) == StepView::Load(query),
    ensures
        !answered(s, query),
{
}

/// The funding lock refuses a second input in the script group.
pub proof fn theorem_funding_second_input_rejected(s: Snapshot)
    requires
        s.second_input == Some(true),
    ensures
        funding::auth_spec(s) == StepView::Reject(Error::MultipleInputs),
{
}

/// Whether the run of the funding lock on `s` gets as far as the script
/// argument: the input is alone in its group and the host delivered the lock
/// script.
pub open spec fn funding_reaches_script(s: Snapshot, script: Script) -> bool {
    &&& s.second_input == Some(false)
    &&& s.script == Some(Ok::<Script, HostError>(script))
}

/// Whether the run of the funding lock on `s` gets as far as the witness.
pub open spec fn funding_reaches_witness(s: Snapshot, script: Script, witness: Vec<u8>) -> bool {
    &&& funding_reaches_script(s, script)
    &&& script@.args.len() == SHORT_HASH_LEN
    &&& s.witness == Some(Ok::<Vec<u8>, HostError>(witness))
}

/// The funding lock refuses a script argument that is not 20 bytes long.
pub proof fn theorem_funding_args_len_rejected(s: Snapshot, script: Script)
    requires
        funding_reaches_script(s, script),
        script@.args.len() != 20,
    ensures
        funding::auth_spec(s) == StepView::Reject(Error::ArgsLenError),
{
}

/// The funding lock refuses a witness of any length but its own.
pub proof fn theorem_funding_witness_len_rejected(s: Snapshot, script: Script, witness: Vec<u8>)
    requires
        funding_reaches_witness(s, script, witness),
        witness@.len() != funding::FUNDING_WITNESS_LEN,
    ensures
        funding::auth_spec(s) == StepView::Reject(Error::WitnessLenError),
{
}

/// The funding lock refuses a witness script that does not hash to the
/// script argument.
pub proof fn theorem_funding_witness_hash_rejected(s: Snapshot, script: Script, witness: Vec<u8>)
    requires
        funding_reaches_witness(s, script, witness),
        witness@.len() == funding::FUNDING_WITNESS_LEN,
        blake2b_160(witness@.subrange(0, 76)) != script@.args,
    ensures
        funding::auth_spec(s) == StepView::Reject(Error::WitnessHashError),
{
}

/// Cooperative spend: a funding witness that the cell commits to leaves the
/// decision to the signature of the aggregated key over the message that
/// binds version, outpoint and transaction.
pub proof fn theorem_funding_spend(s: Snapshot, script: Script, witness: Vec<u8>, tx_hash: Seq<u8>)
    requires
        funding_reaches_witness(s, script, witness),
        witness@.len() == funding::FUNDING_WITNESS_LEN,
        blake2b_160(witness@.subrange(0, 76)) == script@.args,
        s.tx_hash matches Some(Ok(hash)) && hash@ == tx_hash,
        !s.exec_failed,
    ensures
        funding::auth_spec(s) == StepView::Exec(
            AuthCallView {
                signature: witness@.subrange(76, 141),
                message: blake2b_256_digest(witness@.subrange(0, 44) + tx_hash),
                pubkey_hash: blake2b_160(witness@.subrange(44, 76)),
            },
        ),
{
}

/// A verifier that cannot be started leaves the cell locked, under either
/// lock.
pub proof fn theorem_failed_start_rejected(s: Snapshot)
    requires
        s.exec_failed,
    ensures
        !(auth_spec(s) is Exec),
        !(funding::auth_spec(s) is Exec),
{
}

/// Each failure has an exit code of its own.
pub proof fn theorem_codes_are_distinct(a: Error, b: Error)
    requires
        a.spec_code() == b.spec_code(),
    ensures
        a == b,
{
}

/// The lock never reports success itself: the exit code of a refusal is not
/// zero.
pub proof fn theorem_refusal_is_not_success(reason: Error)
    ensures
        reason.spec_code() != 0,
{
}

/// Whatever the host answers, a lock that ends the script ends it with an
/// exit code of the table, 1 to 18. Success is the verifier's to report.
pub proof fn theorem_exit_code_in_table(s: Snapshot)
    ensures
        action_of(auth_spec(s)) matches ActionView::Exit(code) ==> 1 <= code <= 18,
        action_of(funding::auth_spec(s)) matches ActionView::Exit(code) ==> 1 <= code <= 18,
{
}

} // verus!
