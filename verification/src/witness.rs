//! Layout of the witness that unlocks a commitment cell.
//!
//! After the 16 bytes of empty witness arguments the witness holds
//!
//! ```text
//! delay (8) | local delay pubkey hash (20) | revocation pubkey hash (20)
//! HTLC record (85) * n
//! unlock type (1) | signature (65)
//! preimage (32), optional
//! ```
//!
//! The first two lines are the witness script, which the script argument
//! commits to.

use vstd::prelude::*;
use vstd::bytes::{spec_u64_from_le_bytes, u64_from_le_bytes};
use vstd::slice::{slice_subrange, slice_to_vec};
use crate::error::Error;
use crate::hash::{bytes_eq, bytes_view};
use crate::htlc::{preimage_view, Htlc, HTLC_SCRIPT_LEN, PREIMAGE_LEN};
use crate::since::{since_ge, since_reached};

verus! {

/// Length of the empty witness arguments that the witness starts with.
pub const EMPTY_WITNESS_ARGS_LEN: usize = 16;

/// Length of a witness script without pending HTLCs.
pub const MIN_WITNESS_SCRIPT_LEN: usize = 48;

/// Length of the unlock byte and the signature.
pub const UNLOCK_WITH_SIGNATURE_LEN: usize = 66;

/// Length of the shortest witness body.
pub const MIN_WITNESS_LEN: usize = MIN_WITNESS_SCRIPT_LEN + UNLOCK_WITH_SIGNATURE_LEN;

/// The unlock byte of the settlement paths, which consume no HTLC.
pub const UNLOCK_SETTLEMENT: u8 = 0xFF;

/// The serialised empty witness arguments: a table of three absent fields.
pub open spec fn empty_witness_args() -> Seq<u8> {
    seq![16u8, 0, 0, 0, 16, 0, 0, 0, 16, 0, 0, 0, 16, 0, 0, 0]
}

/// What the length of a witness body says about its contents.
#[derive(Clone, Copy, Debug, PartialEq, Eq, Structural)]
pub struct Shape {
    /// Number of HTLC records in the witness script.
    pub pending_htlcs: usize,
    /// Whether a preimage follows the signature.
    pub has_preimage: bool,
}

impl Shape {
    /// Length of the witness script.
    pub open spec fn script_len(self) -> int {
        MIN_WITNESS_SCRIPT_LEN + HTLC_SCRIPT_LEN * self.pending_htlcs
    }

    /// Length of the witness body.
    pub open spec fn body_len(self) -> int {
        self.script_len() + UNLOCK_WITH_SIGNATURE_LEN + if self.has_preimage {
            PREIMAGE_LEN as int
        } else {
            0
        }
    }
}

/// The shape of a witness body of `len` bytes, if there is one: the bytes
/// beyond the shortest body are a whole number of HTLC records, followed or
/// not by a preimage.
pub open spec fn shape_of(len: int) -> Option<Shape> {
    let rest = len - MIN_WITNESS_LEN;
    if rest < 0 {
        None
    } else if rest % (HTLC_SCRIPT_LEN as int) == 0 {
        Some(Shape { pending_htlcs: (rest / (HTLC_SCRIPT_LEN as int)) as usize, has_preimage: false })
    } else if rest % (HTLC_SCRIPT_LEN as int) == PREIMAGE_LEN {
        Some(
            Shape {
                pending_htlcs: ((rest - PREIMAGE_LEN) / (HTLC_SCRIPT_LEN as int)) as usize,
                has_preimage: true,
            },
        )
    } else {
        None
    }
}

/// Classifies a witness body by its length.
pub fn classify(len: usize) -> (shape: Result<Shape, Error>)
    ensures
        shape == match shape_of(len as int) {
            Some(s) => Ok::<Shape, Error>(s),
            None => Err(Error::WitnessLenError),
        },
        shape matches Ok(s) ==> s.body_len() == len,
{
    if len < MIN_WITNESS_LEN {
        return Err(Error::WitnessLenError);
    }
    let rest = len - MIN_WITNESS_LEN;
    let tail = rest % HTLC_SCRIPT_LEN;
    if tail == 0 {
        Ok(Shape { pending_htlcs: rest / HTLC_SCRIPT_LEN, has_preimage: false })
    } else if tail == PREIMAGE_LEN {
        Ok(Shape { pending_htlcs: (rest - PREIMAGE_LEN) / HTLC_SCRIPT_LEN, has_preimage: true })
    } else {
        Err(Error::WitnessLenError)
    }
}

/// A witness body together with its shape.
pub struct WitnessView {
    pub body: Seq<u8>,
    pub shape: Shape,
}

impl WitnessView {
    /// Whether the body has the length that the shape stands for.
    pub open spec fn wf(self) -> bool {
        self.body.len() == self.shape.body_len()
    }

    /// The witness script: what the script argument commits to.
    pub open spec fn script(self) -> Seq<u8> {
        self.body.subrange(0, self.shape.script_len())
    }

    /// The time lock that delays the settlement to the local party.
    pub open spec fn delay(self) -> u64 {
        spec_u64_from_le_bytes(self.body.subrange(0, 8))
    }

    /// Hash of the key that signs the delayed settlement.
    pub open spec fn local_delay_pubkey_hash(self) -> Seq<u8> {
        self.body.subrange(8, 28)
    }

    /// Hash of the key that signs a revocation.
    pub open spec fn revocation_pubkey_hash(self) -> Seq<u8> {
        self.body.subrange(28, 48)
    }

    /// The record of the pending HTLC `index`.
    pub open spec fn htlc(self, index: int) -> Seq<u8> {
        self.body.subrange(
            MIN_WITNESS_SCRIPT_LEN + HTLC_SCRIPT_LEN * index,
            MIN_WITNESS_SCRIPT_LEN + HTLC_SCRIPT_LEN * (index + 1),
        )
    }

    /// The unlock byte, which follows the witness script.
    pub open spec fn unlock_type(self) -> u8 {
        self.body[self.shape.script_len()]
    }

    /// The 65 bytes behind the unlock byte.
    pub open spec fn signature(self) -> Seq<u8> {
        self.body.subrange(
            self.shape.script_len() + 1,
            self.shape.script_len() + UNLOCK_WITH_SIGNATURE_LEN,
        )
    }

    /// The last 32 bytes, where the shape says that they are a preimage.
    pub open spec fn preimage(self) -> Option<Seq<u8>> {
        if self.shape.has_preimage {
            Some(self.body.subrange(self.body.len() - PREIMAGE_LEN, self.body.len() as int))
        } else {
            None
        }
    }

    /// The witness script of the successor cell: this one with the record of
    /// the pending HTLC `index` cut out.
    pub open spec fn successor_script(self, index: int) -> Seq<u8> {
        script_without(self.script(), index)
    }
}

/// The witness script `script` with the record of the pending HTLC `index`
/// cut out and everything else in its place.
pub open spec fn script_without(script: Seq<u8>, index: int) -> Seq<u8> {
    script.subrange(0, MIN_WITNESS_SCRIPT_LEN + HTLC_SCRIPT_LEN * index) + script.subrange(
        MIN_WITNESS_SCRIPT_LEN + HTLC_SCRIPT_LEN * (index + 1),
        script.len() as int,
    )
}

/// Who has to sign a settlement, which consumes no HTLC: with no time lock
/// on the input the holder of the revocation key, else the local party, once
/// the time lock has reached the delay.
pub open spec fn settlement_signer(w: WitnessView, since: u64) -> Result<Seq<u8>, Error> {
    if since == 0 {
        Ok(w.revocation_pubkey_hash())
    } else if since_ge(since, w.delay()) {
        Ok(w.local_delay_pubkey_hash())
    } else {
        Err(Error::InvalidSince)
    }
}

/// The decoded form of the witness `witness`: the body behind the empty
/// witness arguments with its shape, or the reason for which the witness is
/// refused. A witness too short to hold the empty witness arguments does not
/// start with them, and is refused as one that starts with something else.
pub open spec fn parse_spec(witness: Seq<u8>) -> Result<WitnessView, Error> {
    if witness.len() < EMPTY_WITNESS_ARGS_LEN || witness.subrange(
        0,
        EMPTY_WITNESS_ARGS_LEN as int,
    ) != empty_witness_args() {
        Err(Error::EmptyWitnessArgsError)
    } else {
        match shape_of(witness.len() - EMPTY_WITNESS_ARGS_LEN) {
            Some(shape) => Ok(
                WitnessView { body: witness.skip(EMPTY_WITNESS_ARGS_LEN as int), shape },
            ),
            None => Err(Error::WitnessLenError),
        }
    }
}

/// The outcome of decoding a witness as a mathematical value.
pub open spec fn parsed_view(parsed: Result<Witness, Error>) -> Result<WitnessView, Error> {
    match parsed {
        Ok(w) => Ok(w@),
        Err(e) => Err(e),
    }
}

/// Typed view of a witness.
#[derive(Clone, Copy, Debug)]
pub struct Witness<'a> {
    body: &'a [u8],
    shape: Shape,
}

impl<'a> View for Witness<'a> {
    type V = WitnessView;

    closed spec fn view(&self) -> WitnessView {
        WitnessView { body: self.body@, shape: self.shape }
    }
}

/// The empty witness arguments.
fn empty_witness_args_bytes() -> (bytes: [u8; 16])
    ensures
        bytes@ == empty_witness_args(),
{
    let bytes: [u8; 16] = [16, 0, 0, 0, 16, 0, 0, 0, 16, 0, 0, 0, 16, 0, 0, 0];
    assert(bytes@ =~= empty_witness_args());
    bytes
}

impl<'a> Witness<'a> {
    /// Decodes a witness: checks the empty witness arguments in front and
    /// the length of what follows.
    pub fn parse(witness: &'a [u8]) -> (parsed: Result<Witness<'a>, Error>)
        ensures
            parsed_view(parsed) == parse_spec(witness@),
            parsed matches Ok(w) ==> w@.wf(),
    {
        if witness.len() < EMPTY_WITNESS_ARGS_LEN {
            return Err(Error::EmptyWitnessArgsError);
        }
        let sentinel = empty_witness_args_bytes();
        if !bytes_eq(slice_subrange(witness, 0, EMPTY_WITNESS_ARGS_LEN), sentinel.as_slice()) {
            return Err(Error::EmptyWitnessArgsError);
        }
        let body = slice_subrange(witness, EMPTY_WITNESS_ARGS_LEN, witness.len());
        assert(body@ == witness@.skip(EMPTY_WITNESS_ARGS_LEN as int));
        match classify(body.len()) {
            Ok(shape) => Ok(Witness { body, shape }),
            Err(e) => Err(e),
        }
    }

    /// The body has the length that the shape stands for.
    #[verifier::type_invariant]
    spec fn whole(self) -> bool {
        self.body@.len() == self.shape.body_len()
    }

    /// The body, which is as long as the shape says.
    fn body(&self) -> (body: &'a [u8])
        ensures
            body@ == self@.body,
            self@.wf(),
            self@.shape.body_len() <= usize::MAX,
    {
        proof {
            use_type_invariant(self);
            assert(self.body.len() == self.body@.len());
        }
        self.body
    }

    /// Number of HTLC records in the witness script.
    pub fn pending_htlcs(&self) -> (n: usize)
        ensures
            n == self@.shape.pending_htlcs,
            self@.wf(),
    {
        let _ = self.body();
        self.shape.pending_htlcs
    }

    fn script_len(&self) -> (len: usize)
        ensures
            len == self@.shape.script_len(),
            len + UNLOCK_WITH_SIGNATURE_LEN <= usize::MAX,
    {
        let _ = self.body();
        MIN_WITNESS_SCRIPT_LEN + HTLC_SCRIPT_LEN * self.shape.pending_htlcs
    }

    /// The witness script: what the script argument commits to.
    pub fn script(&self) -> (script: &'a [u8])
        ensures
            script@ == self@.script(),
    {
        slice_subrange(self.body(), 0, self.script_len())
    }

    /// The time lock that delays the settlement to the local party.
    pub fn delay(&self) -> (delay: u64)
        ensures
            delay == self@.delay(),
    {
        u64_from_le_bytes(slice_subrange(self.body(), 0, 8))
    }

    /// Hash of the key that signs the delayed settlement.
    pub fn local_delay_pubkey_hash(&self) -> (hash: &'a [u8])
        ensures
            hash@ == self@.local_delay_pubkey_hash(),
    {
        slice_subrange(self.body(), 8, 28)
    }

    /// Hash of the key that signs a revocation.
    pub fn revocation_pubkey_hash(&self) -> (hash: &'a [u8])
        ensures
            hash@ == self@.revocation_pubkey_hash(),
    {
        slice_subrange(self.body(), 28, 48)
    }

    /// The pending HTLC `index`.
    pub fn htlc(&self, index: usize) -> (htlc: Htlc<'a>)
        requires
            index < self@.shape.pending_htlcs,
        ensures
            htlc@ == self@.htlc(index as int),
    {
        let body = self.body();
        let start = MIN_WITNESS_SCRIPT_LEN + HTLC_SCRIPT_LEN * index;
        Htlc::new(slice_subrange(body, start, start + HTLC_SCRIPT_LEN))
    }

    /// The unlock byte: `UNLOCK_SETTLEMENT`, or the index of the pending HTLC
    /// to consume.
    pub fn unlock_type(&self) -> (unlock_type: u8)
        ensures
            unlock_type == self@.unlock_type(),
    {
        self.body()[self.script_len()]
    }

    /// The signature, which the lock passes on unread.
    pub fn signature(&self) -> (signature: &'a [u8])
        ensures
            signature@ == self@.signature(),
    {
        let start = self.script_len();
        slice_subrange(self.body(), start + 1, start + UNLOCK_WITH_SIGNATURE_LEN)
    }

    /// The preimage behind the signature, if there is one.
    pub fn preimage(&self) -> (preimage: Option<&'a [u8]>)
        ensures
            preimage_view(preimage) == self@.preimage(),
    {
        let body = self.body();
        if self.shape.has_preimage {
            Some(slice_subrange(body, body.len() - PREIMAGE_LEN, body.len()))
        } else {
            None
        }
    }

    /// Settles the channel without consuming an HTLC, under the time lock
    /// `since` of the input: tells whose signature it takes, or that the
    /// time lock has not reached the delay.
    pub fn settle(&self, since: u64) -> (signer: Result<Vec<u8>, Error>)
        ensures
            bytes_view(signer) == settlement_signer(self@, since),
    {
        if since == 0 {
            Ok(slice_to_vec(self.revocation_pubkey_hash()))
        } else if since_reached(since, self.delay()) {
            Ok(slice_to_vec(self.local_delay_pubkey_hash()))
        } else {
            Err(Error::InvalidSince)
        }
    }

    /// The witness script of the successor cell: this one with the record of
    /// the pending HTLC `index` cut out.
    pub fn successor_script(&self, index: usize) -> (script: Vec<u8>)
        requires
            index < self@.shape.pending_htlcs,
        ensures
            script@ == self@.successor_script(index as int),
    {
        let body = self.body();
        let cut = MIN_WITNESS_SCRIPT_LEN + HTLC_SCRIPT_LEN * index;
        let end = self.script_len();
        let mut script: Vec<u8> = Vec::new();
        script.extend_from_slice(slice_subrange(body, 0, cut));
        script.extend_from_slice(slice_subrange(body, cut + HTLC_SCRIPT_LEN, end));
        assert(script@ == self@.successor_script(index as int));
        script
    }
}

} // verus!
