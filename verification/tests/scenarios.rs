use ckb_hash::blake2b_256;
use ckb_std::since::{EpochNumberWithFraction, Since};
use commitment_lock::error::Error;
use commitment_lock::commitment::auth;
use commitment_lock::step::{AuthCall, Step};
use commitment_lock::snapshot::{Event, Query, Script, Snapshot};

const BYTE_SHANNONS: u64 = 100_000_000;

const EMPTY_WITNESS_ARGS: [u8; 16] = [16, 0, 0, 0, 16, 0, 0, 0, 16, 0, 0, 0, 16, 0, 0, 0];

/// A transaction as the host would describe it.
#[derive(Clone)]
struct Tx {
    input_type: Option<Script>,
    script: Script,
    witness: Vec<u8>,
    tx_hash: [u8; 32],
    since: u64,
    input_data: Vec<u8>,
    input_capacity: u64,
    output_lock: Script,
    output_capacity: u64,
    output_type: Option<Script>,
    output_data: Vec<u8>,
}

/// Runs the lock on `tx`, answering each question as the host would.
fn verify_tx(tx: &Tx) -> Step {
    let mut snapshot = Snapshot::new();
    for _ in 0..=12 {
        let query = match auth(&snapshot) {
            Step::Load(query) => query,
            step => return step,
        };
        snapshot.record(match query {
            Query::SecondInput => Event::SecondInput(false),
            Query::InputType => Event::InputType(Ok(tx.input_type.clone())),
            Query::Script => Event::Script(Ok(tx.script.clone())),
            Query::Witness => Event::Witness(Ok(tx.witness.clone())),
            Query::TxHash => Event::TxHash(Ok(tx.tx_hash)),
            Query::InputSince => Event::InputSince(Ok(tx.since)),
            Query::InputData => Event::InputData(Ok(tx.input_data.clone())),
            Query::InputCapacity => Event::InputCapacity(Ok(tx.input_capacity)),
            Query::OutputLock => Event::OutputLock(Ok(tx.output_lock.clone())),
            Query::OutputCapacity => Event::OutputCapacity(Ok(tx.output_capacity)),
            Query::OutputType => Event::OutputType(Ok(tx.output_type.clone())),
            Query::OutputData => Event::OutputData(Ok(tx.output_data.clone())),
        });
    }
    panic!("the lock keeps asking");
}

fn pass_verification(tx: &Tx, signature: &[u8], signer: &[u8]) {
    assert_eq!(
        verify_tx(tx),
        Step::Exec(AuthCall {
            signature: signature.to_vec(),
            message: tx.tx_hash,
            pubkey_hash: blake2b_256(signer)[0..20].to_vec(),
        })
    );
}

/// A compressed public key made of `tag`.
fn pubkey(tag: u8) -> Vec<u8> {
    let mut key = vec![2u8];
    key.extend_from_slice(&[tag; 32]);
    key
}

/// A signature made of `tag`: the lock passes it on unread.
fn sign(tag: u8) -> Vec<u8> {
    vec![tag; 65]
}

fn lock_script(args: Vec<u8>) -> Script {
    Script { code_hash: [7u8; 32], hash_type: 1, args }
}

fn udt_script() -> Script {
    Script { code_hash: [9u8; 32], hash_type: 1, args: vec![42; 32] }
}

fn foreign_lock() -> Script {
    Script { code_hash: [0u8; 32], hash_type: 0, args: b"output_lock".to_vec() }
}

fn witness(witness_script: &[u8], unlock_type: u8, signature: &[u8], preimage: Option<&[u8]>) -> Vec<u8> {
    let mut witness = EMPTY_WITNESS_ARGS.to_vec();
    witness.extend_from_slice(witness_script);
    witness.push(unlock_type);
    witness.extend_from_slice(signature);
    if let Some(preimage) = preimage {
        witness.extend_from_slice(preimage);
    }
    witness
}

fn htlc_record(flags: u8, amount: u128, preimage: &[u8], remote: &[u8], local: &[u8], expiry: Since) -> Vec<u8> {
    [
        [flags].to_vec(),
        amount.to_le_bytes().to_vec(),
        blake2b_256(preimage)[0..20].to_vec(),
        blake2b_256(remote)[0..20].to_vec(),
        blake2b_256(local)[0..20].to_vec(),
        expiry.as_u64().to_le_bytes().to_vec(),
    ]
    .concat()
}

#[test]
fn test_commitment_lock_no_pending_htlcs() {
    // 42 hours = 4.5 epochs
    let local_delay_epoch = Since::from_epoch(EpochNumberWithFraction::new(10, 1, 2), false);
    let local_delay_epoch_key = pubkey(1);
    let revocation_key = pubkey(2);

    let witness_script = [
        local_delay_epoch.as_u64().to_le_bytes().to_vec(),
        blake2b_256(&local_delay_epoch_key)[0..20].to_vec(),
        blake2b_256(&revocation_key)[0..20].to_vec(),
    ]
    .concat();

    let args = blake2b_256(&witness_script)[0..20].to_vec();

    // unlock with the revocation key
    let signature = sign(0xa1);
    let tx = Tx {
        input_type: None,
        script: lock_script(args),
        witness: witness(&witness_script, 0xFF, &signature, None),
        tx_hash: [0x11; 32],
        since: 0,
        input_data: Vec::new(),
        input_capacity: 1000,
        output_lock: foreign_lock(),
        output_capacity: 500,
        output_type: None,
        output_data: Vec::new(),
    };
    pass_verification(&tx, &signature, &revocation_key);

    // unlock with the local delay key, delay 48 hours
    let since = Since::from_epoch(EpochNumberWithFraction::new(12, 0, 1), false);
    let signature = sign(0xa2);
    let tx = Tx {
        since: since.as_u64(),
        witness: witness(&witness_script, 0xFF, &signature, None),
        tx_hash: [0x12; 32],
        ..tx
    };
    pass_verification(&tx, &signature, &local_delay_epoch_key);
}

struct TwoHtlcs {
    local_delay_epoch_key: Vec<u8>,
    revocation_key: Vec<u8>,
    remote_htlc_key1: Vec<u8>,
    remote_htlc_key2: Vec<u8>,
    local_htlc_key1: Vec<u8>,
    local_htlc_key2: Vec<u8>,
    preimage1: [u8; 32],
    preimage2: [u8; 32],
    payment_amount1: u128,
    payment_amount2: u128,
    witness_script: Vec<u8>,
    /// The witness script without the first HTLC.
    without_htlc1: Vec<u8>,
    /// The witness script without the second HTLC.
    without_htlc2: Vec<u8>,
}

fn two_htlcs(payment_amount1: u128, payment_amount2: u128) -> TwoHtlcs {
    // 42 hours = 4.5 epochs
    let local_delay_epoch = Since::from_epoch(EpochNumberWithFraction::new(10, 1, 2), false);
    let local_delay_epoch_key = pubkey(1);
    let revocation_key = pubkey(2);
    let remote_htlc_key1 = pubkey(3);
    let remote_htlc_key2 = pubkey(4);
    let local_htlc_key1 = pubkey(5);
    let local_htlc_key2 = pubkey(6);
    let preimage1 = [42u8; 32];
    let preimage2 = [24u8; 32];
    // timeout after 2024-04-01 01:00:00
    let expiry1 = Since::from_timestamp(1711976400, true).unwrap();
    // timeout after 2024-04-02 01:00:00
    let expiry2 = Since::from_timestamp(1712062800, true).unwrap();

    let base = [
        local_delay_epoch.as_u64().to_le_bytes().to_vec(),
        blake2b_256(&local_delay_epoch_key)[0..20].to_vec(),
        blake2b_256(&revocation_key)[0..20].to_vec(),
    ]
    .concat();
    let htlc1 = htlc_record(0, payment_amount1, &preimage1, &remote_htlc_key1, &local_htlc_key1, expiry1);
    let htlc2 = htlc_record(1, payment_amount2, &preimage2, &remote_htlc_key2, &local_htlc_key2, expiry2);
    TwoHtlcs {
        local_delay_epoch_key,
        revocation_key,
        remote_htlc_key1,
        remote_htlc_key2,
        local_htlc_key1,
        local_htlc_key2,
        preimage1,
        preimage2,
        payment_amount1,
        payment_amount2,
        witness_script: [base.clone(), htlc1.clone(), htlc2.clone()].concat(),
        without_htlc1: [base.clone(), htlc2].concat(),
        without_htlc2: [base, htlc1].concat(),
    }
}

#[test]
fn test_commitment_lock_with_two_pending_htlcs() {
    let payment_amount1 = 5 * BYTE_SHANNONS as u128;
    let payment_amount2 = 8 * BYTE_SHANNONS as u128;
    let c = two_htlcs(payment_amount1, payment_amount2);
    let lock = lock_script(blake2b_256(&c.witness_script)[0..20].to_vec());
    let new_lock = |script: &[u8]| Script { args: blake2b_256(script)[0..20].to_vec(), ..lock.clone() };

    let signature = sign(0xb1);
    let tx = Tx {
        input_type: None,
        script: lock.clone(),
        witness: witness(&c.witness_script, 0xFF, &signature, None),
        tx_hash: [0x21; 32],
        since: 0,
        input_data: Vec::new(),
        input_capacity: 1000 * BYTE_SHANNONS,
        output_lock: foreign_lock(),
        output_capacity: 500 * BYTE_SHANNONS,
        output_type: None,
        output_data: Vec::new(),
    };

    // sign with revocation key
    pass_verification(&tx, &signature, &c.revocation_key);

    // local_delay_epoch unlock logic, delay 48 hours
    let since = Since::from_epoch(EpochNumberWithFraction::new(12, 0, 1), false);
    let delayed = Tx { since: since.as_u64(), ..tx.clone() };
    pass_verification(&delayed, &signature, &c.local_delay_epoch_key);

    // remote_htlc_pubkey unlock offered pending htlc 1
    let claimed = Tx {
        witness: witness(&c.witness_script, 0x00, &signature, Some(&c.preimage1)),
        output_lock: new_lock(&c.without_htlc1),
        output_capacity: 1000 * BYTE_SHANNONS - payment_amount1 as u64,
        ..tx.clone()
    };
    pass_verification(&claimed, &signature, &c.remote_htlc_key1);

    // local_htlc_pubkey unlock offered pending htlc 1
    let since = Since::from_timestamp(1711976400 + 1000, true).unwrap();
    let refunded = Tx {
        since: since.as_u64(),
        witness: witness(&c.witness_script, 0x00, &signature, Some(&c.preimage1)),
        output_lock: new_lock(&c.without_htlc1),
        output_capacity: 1000 * BYTE_SHANNONS,
        ..tx.clone()
    };
    pass_verification(&refunded, &signature, &c.local_htlc_key1);

    // remote_htlc_pubkey unlock received pending htlc 2
    let since = Since::from_timestamp(1712062800 + 1000, true).unwrap();
    let refunded = Tx {
        since: since.as_u64(),
        witness: witness(&c.witness_script, 0x01, &signature, None),
        output_lock: new_lock(&c.without_htlc2),
        output_capacity: 1000 * BYTE_SHANNONS - payment_amount2 as u64,
        ..tx.clone()
    };
    pass_verification(&refunded, &signature, &c.remote_htlc_key2);

    // local_htlc_pubkey unlock received pending htlc 2
    let claimed = Tx {
        witness: witness(&c.witness_script, 0x01, &signature, Some(&c.preimage2)),
        output_lock: new_lock(&c.without_htlc2),
        output_capacity: 1000 * BYTE_SHANNONS,
        ..tx.clone()
    };
    pass_verification(&claimed, &signature, &c.local_htlc_key2);
}

#[test]
fn test_commitment_lock_with_two_pending_htlcs_and_sudt() {
    let payment_amount1 = 1234567890u128;
    let payment_amount2 = 9876543210u128;
    let c = two_htlcs(payment_amount1, payment_amount2);
    let lock = lock_script(blake2b_256(&c.witness_script)[0..20].to_vec());
    let new_lock = |script: &[u8]| Script { args: blake2b_256(script)[0..20].to_vec(), ..lock.clone() };
    let total_sudt_amount = 424242424242424242u128;

    let signature = sign(0xc1);
    let tx = Tx {
        input_type: Some(udt_script()),
        script: lock.clone(),
        witness: witness(&c.witness_script, 0xFF, &signature, None),
        tx_hash: [0x31; 32],
        since: 0,
        input_data: total_sudt_amount.to_le_bytes().to_vec(),
        input_capacity: 1000 * BYTE_SHANNONS,
        output_lock: foreign_lock(),
        output_capacity: 500 * BYTE_SHANNONS,
        output_type: Some(udt_script()),
        output_data: (total_sudt_amount / 2).to_le_bytes().to_vec(),
    };

    // sign with revocation key
    pass_verification(&tx, &signature, &c.revocation_key);

    // local_delay_epoch unlock logic, delay 48 hours
    let since = Since::from_epoch(EpochNumberWithFraction::new(12, 0, 1), false);
    let delayed = Tx { since: since.as_u64(), ..tx.clone() };
    pass_verification(&delayed, &signature, &c.local_delay_epoch_key);

    // remote_htlc_pubkey unlock offered pending htlc 1
    let claimed = Tx {
        witness: witness(&c.witness_script, 0x00, &signature, Some(&c.preimage1)),
        output_lock: new_lock(&c.without_htlc1),
        output_capacity: 1000 * BYTE_SHANNONS,
        output_data: (total_sudt_amount - payment_amount1).to_le_bytes().to_vec(),
        ..tx.clone()
    };
    pass_verification(&claimed, &signature, &c.remote_htlc_key1);

    // local_htlc_pubkey unlock offered pending htlc 1
    let since = Since::from_timestamp(1711976400 + 1000, true).unwrap();
    let refunded = Tx {
        since: since.as_u64(),
        witness: witness(&c.witness_script, 0x00, &signature, Some(&c.preimage1)),
        output_lock: new_lock(&c.without_htlc1),
        output_capacity: 1000 * BYTE_SHANNONS,
        output_data: total_sudt_amount.to_le_bytes().to_vec(),
        ..tx.clone()
    };
    pass_verification(&refunded, &signature, &c.local_htlc_key1);

    // remote_htlc_pubkey unlock received pending htlc 2
    let since = Since::from_timestamp(1712062800 + 1000, true).unwrap();
    let refunded = Tx {
        since: since.as_u64(),
        witness: witness(&c.witness_script, 0x01, &signature, None),
        output_lock: new_lock(&c.without_htlc2),
        output_capacity: 1000 * BYTE_SHANNONS,
        output_data: (total_sudt_amount - payment_amount2).to_le_bytes().to_vec(),
        ..tx.clone()
    };
    pass_verification(&refunded, &signature, &c.remote_htlc_key2);

    // local_htlc_pubkey unlock received pending htlc 2
    let claimed = Tx {
        witness: witness(&c.witness_script, 0x01, &signature, Some(&c.preimage2)),
        output_lock: new_lock(&c.without_htlc2),
        output_capacity: 1000 * BYTE_SHANNONS,
        output_data: total_sudt_amount.to_le_bytes().to_vec(),
        ..tx.clone()
    };
    pass_verification(&claimed, &signature, &c.local_htlc_key2);
}

#[test]
fn local_delay_before_the_delay_is_invalid_since() {
    let local_delay_epoch = Since::from_epoch(EpochNumberWithFraction::new(10, 1, 2), false);
    let witness_script = [
        local_delay_epoch.as_u64().to_le_bytes().to_vec(),
        blake2b_256(pubkey(1))[0..20].to_vec(),
        blake2b_256(pubkey(2))[0..20].to_vec(),
    ]
    .concat();
    let tx = Tx {
        input_type: None,
        script: lock_script(blake2b_256(&witness_script)[0..20].to_vec()),
        witness: witness(&witness_script, 0xFF, &sign(1), None),
        tx_hash: [0x41; 32],
        since: Since::from_epoch(EpochNumberWithFraction::new(10, 0, 1), false).as_u64(),
        input_data: Vec::new(),
        input_capacity: 1000,
        output_lock: foreign_lock(),
        output_capacity: 500,
        output_type: None,
        output_data: Vec::new(),
    };
    assert_eq!(verify_tx(&tx), Step::Reject(Error::InvalidSince));

    // exactly the delay is enough
    let tx = Tx { since: local_delay_epoch.as_u64(), ..tx };
    assert!(matches!(verify_tx(&tx), Step::Exec(_)));

    // an absolute epoch is not comparable to the relative delay
    let tx = Tx { since: Since::from_epoch(EpochNumberWithFraction::new(12, 0, 1), true).as_u64(), ..tx };
    assert_eq!(verify_tx(&tx), Step::Reject(Error::InvalidSince));

    // nor is a block number
    let tx = Tx { since: Since::from_block_number(1 << 40, false).unwrap().as_u64(), ..tx };
    assert_eq!(verify_tx(&tx), Step::Reject(Error::InvalidSince));
}

fn claim_of_first_htlc() -> (TwoHtlcs, Tx) {
    let payment_amount1 = 5 * BYTE_SHANNONS as u128;
    let payment_amount2 = 8 * BYTE_SHANNONS as u128;
    let c = two_htlcs(payment_amount1, payment_amount2);
    let lock = lock_script(blake2b_256(&c.witness_script)[0..20].to_vec());
    let tx = Tx {
        input_type: None,
        script: lock.clone(),
        witness: witness(&c.witness_script, 0x00, &sign(3), Some(&c.preimage1)),
        tx_hash: [0x51; 32],
        since: 0,
        input_data: Vec::new(),
        input_capacity: 1000 * BYTE_SHANNONS,
        output_lock: Script { args: blake2b_256(&c.without_htlc1)[0..20].to_vec(), ..lock },
        output_capacity: 1000 * BYTE_SHANNONS - payment_amount1 as u64,
        output_type: None,
        output_data: Vec::new(),
    };
    (c, tx)
}

#[test]
fn claim_without_preimage_is_preimage_error() {
    let (c, tx) = claim_of_first_htlc();
    assert!(matches!(verify_tx(&tx), Step::Exec(_)));

    let missing = Tx { witness: witness(&c.witness_script, 0x00, &sign(3), None), ..tx.clone() };
    assert_eq!(verify_tx(&missing), Step::Reject(Error::PreimageError));

    let wrong = Tx { witness: witness(&c.witness_script, 0x00, &sign(3), Some(&c.preimage2)), ..tx.clone() };
    assert_eq!(verify_tx(&wrong), Step::Reject(Error::PreimageError));

    // the received HTLC wants its own preimage too
    let wrong = Tx { witness: witness(&c.witness_script, 0x01, &sign(3), Some(&c.preimage1)), ..tx };
    assert_eq!(verify_tx(&wrong), Step::Reject(Error::PreimageError));
}

#[test]
fn claim_with_altered_output_is_refused() {
    let (c, tx) = claim_of_first_htlc();

    let mut args = tx.output_lock.args.clone();
    args[0] ^= 1;
    let altered = Tx { output_lock: Script { args, ..tx.output_lock.clone() }, ..tx.clone() };
    assert_eq!(verify_tx(&altered), Step::Reject(Error::OutputLockError));

    // the successor must drop the consumed HTLC, not the other one
    let other = Tx {
        output_lock: Script { args: blake2b_256(&c.without_htlc2)[0..20].to_vec(), ..tx.output_lock.clone() },
        ..tx.clone()
    };
    assert_eq!(verify_tx(&other), Step::Reject(Error::OutputLockError));

    let code = Tx { output_lock: Script { code_hash: [8u8; 32], ..tx.output_lock.clone() }, ..tx.clone() };
    assert_eq!(verify_tx(&code), Step::Reject(Error::OutputLockError));

    let hash_type = Tx { output_lock: Script { hash_type: 2, ..tx.output_lock.clone() }, ..tx.clone() };
    assert_eq!(verify_tx(&hash_type), Step::Reject(Error::OutputLockError));

    let kept = Tx { output_capacity: 1000 * BYTE_SHANNONS, ..tx.clone() };
    assert_eq!(verify_tx(&kept), Step::Reject(Error::OutputCapacityError));

    let short = Tx { output_capacity: tx.output_capacity - 1, ..tx };
    assert_eq!(verify_tx(&short), Step::Reject(Error::OutputCapacityError));
}

#[test]
fn payment_beyond_the_input_is_refused() {
    let (c, tx) = claim_of_first_htlc();
    let poor = Tx { input_capacity: c.payment_amount1 as u64 - 1, output_capacity: 0, ..tx.clone() };
    assert_eq!(verify_tx(&poor), Step::Reject(Error::OutputCapacityError));

    let exact = Tx { input_capacity: c.payment_amount1 as u64, output_capacity: 0, ..tx };
    assert!(matches!(verify_tx(&exact), Step::Exec(_)));
    assert_eq!(c.payment_amount2, 8 * BYTE_SHANNONS as u128);
}

fn refund_of_second_htlc_with_udt() -> (TwoHtlcs, Tx, u128) {
    let c = two_htlcs(1234567890, 9876543210);
    let lock = lock_script(blake2b_256(&c.witness_script)[0..20].to_vec());
    let total = 424242424242424242u128;
    let tx = Tx {
        input_type: Some(udt_script()),
        script: lock.clone(),
        witness: witness(&c.witness_script, 0x01, &sign(4), None),
        tx_hash: [0x61; 32],
        since: Since::from_timestamp(1712062800, true).unwrap().as_u64(),
        input_data: total.to_le_bytes().to_vec(),
        input_capacity: 1000 * BYTE_SHANNONS,
        output_lock: Script { args: blake2b_256(&c.without_htlc2)[0..20].to_vec(), ..lock },
        output_capacity: 1000 * BYTE_SHANNONS,
        output_type: Some(udt_script()),
        output_data: (total - 9876543210).to_le_bytes().to_vec(),
    };
    (c, tx, total)
}

#[test]
fn refund_with_udt_checks_type_amount_and_capacity() {
    let (c, tx, total) = refund_of_second_htlc_with_udt();
    pass_verification(&tx, &sign(4), &c.remote_htlc_key2);

    let wrong_type = Tx {
        output_type: Some(Script { args: vec![43; 32], ..udt_script() }),
        ..tx.clone()
    };
    assert_eq!(verify_tx(&wrong_type), Step::Reject(Error::OutputTypeError));

    let no_type = Tx { output_type: None, ..tx.clone() };
    assert_eq!(verify_tx(&no_type), Step::Reject(Error::OutputTypeError));

    let unpaid = Tx { output_data: total.to_le_bytes().to_vec(), ..tx.clone() };
    assert_eq!(verify_tx(&unpaid), Step::Reject(Error::OutputUdtAmountError));

    let capacity = Tx { output_capacity: 1000 * BYTE_SHANNONS - 1, ..tx.clone() };
    assert_eq!(verify_tx(&capacity), Step::Reject(Error::OutputCapacityError));

    // data behind the amount is not read
    let mut data = tx.output_data.clone();
    data.extend_from_slice(b"memo");
    let longer = Tx { output_data: data, ..tx.clone() };
    assert!(matches!(verify_tx(&longer), Step::Exec(_)));

    // more tokens than the input holds cannot be paid out
    let poor = Tx { input_data: 9876543209u128.to_le_bytes().to_vec(), output_data: 0u128.to_le_bytes().to_vec(), ..tx };
    assert_eq!(verify_tx(&poor), Step::Reject(Error::OutputUdtAmountError));
}

#[test]
fn refund_before_the_expiry_is_invalid_since() {
    let (_, tx, _) = refund_of_second_htlc_with_udt();
    let early = Tx { since: Since::from_timestamp(1712062800 - 1, true).unwrap().as_u64(), ..tx.clone() };
    assert_eq!(verify_tx(&early), Step::Reject(Error::InvalidSince));

    // a relative timestamp is not comparable to the absolute expiry
    let relative = Tx { since: Since::from_timestamp(1712062800 + 1000, false).unwrap().as_u64(), ..tx.clone() };
    assert_eq!(verify_tx(&relative), Step::Reject(Error::InvalidSince));

    // the offered HTLC expires earlier
    let (c, tx, total) = (two_htlcs(1234567890, 9876543210), tx, 424242424242424242u128);
    let offered = Tx {
        witness: witness(&c.witness_script, 0x00, &sign(4), None),
        since: Since::from_timestamp(1711976400 - 1, true).unwrap().as_u64(),
        output_lock: Script { args: blake2b_256(&c.without_htlc1)[0..20].to_vec(), ..tx.output_lock.clone() },
        output_data: total.to_le_bytes().to_vec(),
        ..tx
    };
    assert_eq!(verify_tx(&offered), Step::Reject(Error::InvalidSince));
    let offered = Tx { since: Since::from_timestamp(1711976400, true).unwrap().as_u64(), ..offered };
    pass_verification(&offered, &sign(4), &c.local_htlc_key1);
}

#[test]
fn malformed_witness_length_is_refused() {
    let (c, tx) = claim_of_first_htlc();
    // 40 bytes beyond the base, the unlock byte and the signature
    let mut bytes = EMPTY_WITNESS_ARGS.to_vec();
    bytes.extend_from_slice(&c.witness_script[0..48]);
    bytes.extend_from_slice(&[0u8; 40]);
    bytes.push(0xFF);
    bytes.extend_from_slice(&sign(5));
    assert_eq!(bytes.len(), 16 + 48 + 66 + 40);
    let tx = Tx { witness: bytes, ..tx };
    assert_eq!(verify_tx(&tx), Step::Reject(Error::WitnessLenError));

    // shorter than the base with the unlock byte and the signature
    let tx = Tx { witness: [EMPTY_WITNESS_ARGS.to_vec(), vec![0u8; 113]].concat(), ..tx };
    assert_eq!(verify_tx(&tx), Step::Reject(Error::WitnessLenError));
    let tx = Tx { witness: EMPTY_WITNESS_ARGS.to_vec(), ..tx };
    assert_eq!(verify_tx(&tx), Step::Reject(Error::WitnessLenError));
}

#[test]
fn structural_errors_come_in_order() {
    let (c, tx) = claim_of_first_htlc();

    let args = Tx { script: Script { args: vec![0u8; 21], ..tx.script.clone() }, witness: vec![0u8; 16], ..tx.clone() };
    assert_eq!(verify_tx(&args), Step::Reject(Error::ArgsLenError));
    let args = Tx { script: Script { args: Vec::new(), ..tx.script.clone() }, ..tx.clone() };
    assert_eq!(verify_tx(&args), Step::Reject(Error::ArgsLenError));

    let mut bytes = tx.witness.clone();
    bytes[15] = 1;
    let sentinel = Tx { witness: bytes, ..tx.clone() };
    assert_eq!(verify_tx(&sentinel), Step::Reject(Error::EmptyWitnessArgsError));
    // the sentinel is checked before the length
    let sentinel = Tx { witness: vec![0u8; 16], ..tx.clone() };
    assert_eq!(verify_tx(&sentinel), Step::Reject(Error::EmptyWitnessArgsError));

    let mut bytes = tx.witness.clone();
    bytes[16 + 48 + 85] ^= 0x02;
    let hash = Tx { witness: bytes, ..tx.clone() };
    assert_eq!(verify_tx(&hash), Step::Reject(Error::WitnessHashError));
    let mut args = tx.script.args.clone();
    args[19] ^= 0x80;
    let hash = Tx { script: Script { args, ..tx.script.clone() }, ..tx.clone() };
    assert_eq!(verify_tx(&hash), Step::Reject(Error::WitnessHashError));

    let unlock = Tx { witness: witness(&c.witness_script, 0x02, &sign(3), None), ..tx.clone() };
    assert_eq!(verify_tx(&unlock), Step::Reject(Error::InvalidUnlockType));
    let unlock = Tx { witness: witness(&c.witness_script, 0xFE, &sign(3), Some(&c.preimage1)), ..tx };
    assert_eq!(verify_tx(&unlock), Step::Reject(Error::InvalidUnlockType));
}

#[test]
fn successor_cell_is_spent_in_its_turn() {
    let (c, first) = claim_of_first_htlc();
    pass_verification(&first, &sign(3), &c.remote_htlc_key1);

    // the successor holds one HTLC, the received one, which is now the first
    let base = c.witness_script[0..48].to_vec();
    let second = Tx {
        script: first.output_lock.clone(),
        witness: witness(&c.without_htlc1, 0x00, &sign(6), Some(&c.preimage2)),
        tx_hash: [0x52; 32],
        input_capacity: first.output_capacity,
        output_lock: Script { args: blake2b_256(&base)[0..20].to_vec(), ..first.output_lock.clone() },
        output_capacity: first.output_capacity,
        ..first.clone()
    };
    pass_verification(&second, &sign(6), &c.local_htlc_key2);

    // the witness of the first cell no longer fits
    let stale = Tx { witness: first.witness.clone(), ..second.clone() };
    assert_eq!(verify_tx(&stale), Step::Reject(Error::WitnessHashError));

    // the last successor has no HTLC left and is settled
    let third = Tx {
        script: second.output_lock.clone(),
        witness: witness(&base, 0xFF, &sign(7), None),
        tx_hash: [0x53; 32],
        output_lock: foreign_lock(),
        ..second.clone()
    };
    pass_verification(&third, &sign(7), &c.revocation_key);
    let none_left = Tx { witness: witness(&base, 0x00, &sign(7), None), ..third };
    assert_eq!(verify_tx(&none_left), Step::Reject(Error::InvalidUnlockType));
}
