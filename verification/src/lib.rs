//! Decision logic of the two lock scripts of a payment channel.
//!
//! The funding lock guards the cell that holds the funds of the channel
//! while both parties cooperate: it is spent with one signature of their
//! aggregated key.
//!
//! The commitment lock guards the cells that a unilateral close produces. A
//! cell is spent along one of four paths (revocation, delayed settlement,
//! claim of a pending HTLC with its preimage, refund of a pending HTLC after
//! its expiry), and whoever consumes an HTLC has to commit the remaining ones
//! again in the first output of the transaction.
//!
//! The crate holds no host access of its own. The embedding program answers
//! the questions that [`commitment::auth`] and [`funding::auth`] raise, and
//! starts the signature verifier with the arguments that they end on.

pub mod commitment;
pub mod encoding;
pub mod entry;
pub mod error;
pub mod funding;
pub mod hash;
pub mod htlc;
pub mod since;
pub mod snapshot;
pub mod step;
pub mod theorems;
pub mod witness;

pub use entry::{funding_entry, program_entry, Action};
pub use error::{Error, HostError};
pub use htlc::Htlc;
pub use snapshot::{Event, Query, Snapshot};
