//! The 85-byte record of a pending HTLC and the rules for consuming one.
//!
//! | offset | length | field                                     |
//! |--------|--------|-------------------------------------------|
//! | 0      | 1      | flags: bit 0 direction, bit 1 hash choice |
//! | 1      | 16     | payment amount, little endian             |
//! | 17     | 20     | payment hash                              |
//! | 37     | 20     | remote HTLC public-key hash               |
//! | 57     | 20     | local HTLC public-key hash                |
//! | 77     | 8      | expiry, a time lock, little endian        |

use vstd::prelude::*;
use vstd::bytes::{spec_u128_from_le_bytes, spec_u64_from_le_bytes, u128_from_le_bytes, u64_from_le_bytes};
use vstd::slice::{slice_subrange, slice_to_vec};
use crate::error::Error;
use crate::hash::{blake2b_160, bytes_eq, sha256_160, short_blake2b, short_sha256};
use crate::since::{since_ge, since_reached};

verus! {

/// Length of one HTLC record.
pub const HTLC_SCRIPT_LEN: usize = 85;

/// Length of the preimage of a payment hash.
pub const PREIMAGE_LEN: usize = 32;

/// Which side of the channel offered the HTLC.
#[derive(Clone, Copy, Debug, PartialEq, Eq, Structural)]
pub enum HtlcType {
    /// Offered by the holder of the commitment: the remote party claims it
    /// with the preimage, the holder takes it back after the expiry.
    Offered,
    /// Received by the holder of the commitment: the holder claims it with
    /// the preimage, the remote party takes it back after the expiry.
    Received,
}

/// The hash function that ties the payment hash to its preimage.
#[derive(Clone, Copy, Debug, PartialEq, Eq, Structural)]
pub enum PaymentHashType {
    Blake2b,
    Sha256,
}

/// The direction that a record's flag byte encodes.
pub open spec fn record_type(record: Seq<u8>) -> HtlcType {
    if record[0] & 0b00000001 == 0 {
        HtlcType::Offered
    } else {
        HtlcType::Received
    }
}

/// The hash choice that a record's flag byte encodes.
pub open spec fn record_hash_type(record: Seq<u8>) -> PaymentHashType {
    if (record[0] >> 1) & 0b0000001 == 0 {
        PaymentHashType::Blake2b
    } else {
        PaymentHashType::Sha256
    }
}

/// The amount that a record pays.
pub open spec fn record_amount(record: Seq<u8>) -> u128 {
    spec_u128_from_le_bytes(record.subrange(1, 17))
}

/// The payment hash of a record.
pub open spec fn record_payment_hash(record: Seq<u8>) -> Seq<u8> {
    record.subrange(17, 37)
}

/// The remote party's public-key hash in a record.
pub open spec fn record_remote_pubkey_hash(record: Seq<u8>) -> Seq<u8> {
    record.subrange(37, 57)
}

/// The local party's public-key hash in a record.
pub open spec fn record_local_pubkey_hash(record: Seq<u8>) -> Seq<u8> {
    record.subrange(57, 77)
}

/// The expiry of a record.
pub open spec fn record_expiry(record: Seq<u8>) -> u64 {
    spec_u64_from_le_bytes(record.subrange(77, 85))
}

/// The truncated hash of `preimage` under the record's hash choice.
pub open spec fn record_hash_of(record: Seq<u8>, preimage: Seq<u8>) -> Seq<u8> {
    match record_hash_type(record) {
        PaymentHashType::Blake2b => blake2b_160(preimage),
        PaymentHashType::Sha256 => sha256_160(preimage),
    }
}

/// Whether a preimage is there and hashes to the record's payment hash.
pub open spec fn preimage_opens(record: Seq<u8>, preimage: Option<Seq<u8>>) -> bool {
    match preimage {
        Some(p) => record_payment_hash(record) == record_hash_of(record, p),
        None => false,
    }
}

/// What consuming an HTLC settles: who has to sign, and how much leaves the
/// channel.
#[derive(Clone, Debug, PartialEq, Eq)]
pub struct Settlement {
    /// Hash of the public key that has to sign the transaction.
    pub pubkey_hash: Vec<u8>,
    /// The amount by which the successor cell is smaller than the input.
    pub payment: u128,
}

/// A `Settlement` as a mathematical value.
pub struct SettlementView {
    pub pubkey_hash: Seq<u8>,
    pub payment: u128,
}

impl View for Settlement {
    type V = SettlementView;

    open spec fn view(&self) -> SettlementView {
        SettlementView { pubkey_hash: self.pubkey_hash@, payment: self.payment }
    }
}

/// The outcome of consuming the HTLC `record` in a transaction whose input
/// carries the time lock `since`.
///
/// With no time lock the HTLC is claimed, which takes the preimage; the
/// remote party claims an offered HTLC, the local party a received one. With
/// a time lock the HTLC is refunded, which takes a lock that has reached the
/// expiry; the local party takes back what it offered, the remote party what
/// it sent. The payment leaves the channel exactly when the remote party
/// signs.
pub open spec fn settle_spec(record: Seq<u8>, since: u64, preimage: Option<Seq<u8>>) -> Result<
    SettlementView,
    Error,
> {
    let to_remote = SettlementView {
        pubkey_hash: record_remote_pubkey_hash(record),
        payment: record_amount(record),
    };
    let to_local = SettlementView { pubkey_hash: record_local_pubkey_hash(record), payment: 0 };
    if since == 0 {
        if !preimage_opens(record, preimage) {
            Err(Error::PreimageError)
        } else {
            match record_type(record) {
                HtlcType::Offered => Ok(to_remote),
                HtlcType::Received => Ok(to_local),
            }
        }
    } else {
        if !since_ge(since, record_expiry(record)) {
            Err(Error::InvalidSince)
        } else {
            match record_type(record) {
                HtlcType::Offered => Ok(to_local),
                HtlcType::Received => Ok(to_remote),
            }
        }
    }
}

/// View of one HTLC record inside a witness.
#[derive(Clone, Copy, Debug)]
pub struct Htlc<'a>(&'a [u8]);

impl<'a> View for Htlc<'a> {
    type V = Seq<u8>;

    closed spec fn view(&self) -> Seq<u8> {
        self.0@
    }
}

impl<'a> Htlc<'a> {
    /// A view of `record`, which has to be one whole record.
    pub fn new(record: &'a [u8]) -> (htlc: Htlc<'a>)
        requires
            record@.len() == HTLC_SCRIPT_LEN,
        ensures
            htlc@ == record@,
    {
        Htlc(record)
    }

    /// The view covers exactly one record.
    #[verifier::type_invariant]
    spec fn whole(self) -> bool {
        self.0@.len() == HTLC_SCRIPT_LEN
    }

    /// The bytes of the record.
    pub fn as_bytes(&self) -> (record: &'a [u8])
        ensures
            record@ == self@,
            record@.len() == HTLC_SCRIPT_LEN,
    {
        proof {
            use_type_invariant(self);
        }
        self.0
    }

    /// Which side offered the HTLC: bit 0 of the flags.
    pub fn htlc_type(&self) -> (ty: HtlcType)
        ensures
            ty == record_type(self@),
    {
        if self.as_bytes()[0] & 0b00000001 == 0 {
            HtlcType::Offered
        } else {
            HtlcType::Received
        }
    }

    /// The hash function of the payment hash: bit 1 of the flags.
    pub fn payment_hash_type(&self) -> (ty: PaymentHashType)
        ensures
            ty == record_hash_type(self@),
    {
        if (self.as_bytes()[0] >> 1) & 0b0000001 == 0 {
            PaymentHashType::Blake2b
        } else {
            PaymentHashType::Sha256
        }
    }

    /// The amount that the HTLC pays.
    pub fn payment_amount(&self) -> (amount: u128)
        ensures
            amount == record_amount(self@),
    {
        u128_from_le_bytes(slice_subrange(self.as_bytes(), 1, 17))
    }

    /// The truncated hash of the preimage that claims the HTLC.
    pub fn payment_hash(&self) -> (hash: &'a [u8])
        ensures
            hash@ == record_payment_hash(self@),
    {
        slice_subrange(self.as_bytes(), 17, 37)
    }

    /// Hash of the remote party's public key for this HTLC.
    pub fn remote_htlc_pubkey_hash(&self) -> (hash: &'a [u8])
        ensures
            hash@ == record_remote_pubkey_hash(self@),
    {
        slice_subrange(self.as_bytes(), 37, 57)
    }

    /// Hash of the local party's public key for this HTLC.
    pub fn local_htlc_pubkey_hash(&self) -> (hash: &'a [u8])
        ensures
            hash@ == record_local_pubkey_hash(self@),
    {
        slice_subrange(self.as_bytes(), 57, 77)
    }

    /// The time lock after which the HTLC is refunded.
    pub fn htlc_expiry(&self) -> (expiry: u64)
        ensures
            expiry == record_expiry(self@),
    {
        u64_from_le_bytes(slice_subrange(self.as_bytes(), 77, 85))
    }

    /// Whether `preimage` hashes to the payment hash under the record's hash
    /// choice.
    pub fn opened_by(&self, preimage: &[u8]) -> (opened: bool)
        ensures
            opened == (record_payment_hash(self@) == record_hash_of(self@, preimage@)),
    {
        let hash = match self.payment_hash_type() {
            PaymentHashType::Blake2b => short_blake2b(preimage),
            PaymentHashType::Sha256 => short_sha256(preimage),
        };
        bytes_eq(self.payment_hash(), hash.as_slice())
    }

    /// Consumes the HTLC under the time lock `since` of the input: tells who
    /// has to sign and how much leaves the channel, or why the HTLC cannot
    /// be consumed.
    pub fn settle(&self, since: u64, preimage: Option<&[u8]>) -> (settled: Result<
        Settlement,
        Error,
    >)
        ensures
            settled_view(settled) == settle_spec(self@, since, preimage_view(preimage)),
    {
        let claim = since == 0;
        if claim {
            let opened = match preimage {
                Some(p) => self.opened_by(p),
                None => false,
            };
            if !opened {
                return Err(Error::PreimageError);
            }
        } else if !since_reached(since, self.htlc_expiry()) {
            return Err(Error::InvalidSince);
        }
        let to_remote = match self.htlc_type() {
            HtlcType::Offered => claim,
            HtlcType::Received => !claim,
        };
        if to_remote {
            Ok(
                Settlement {
                    pubkey_hash: slice_to_vec(self.remote_htlc_pubkey_hash()),
                    payment: self.payment_amount(),
                },
            )
        } else {
            Ok(Settlement { pubkey_hash: slice_to_vec(self.local_htlc_pubkey_hash()), payment: 0 })
        }
    }
}

/// The outcome of a settlement as a mathematical value.
pub open spec fn settled_view(settled: Result<Settlement, Error>) -> Result<SettlementView, Error> {
    match settled {
        Ok(s) => Ok(s@),
        Err(e) => Err(e),
    }
}

/// The bytes of an optional preimage.
pub open spec fn preimage_view(preimage: Option<&[u8]>) -> Option<Seq<u8>> {
    match preimage {
        Some(p) => Some(p@),
        None => None,
    }
}

} // verus!
