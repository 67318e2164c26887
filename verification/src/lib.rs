//! Issues a fixed reward once per proof-of-compliance commitment.
//!
//! A farmer submits a proof together with a commitment that identifies it.
//! The first accepted submission of a commitment mints one token to the
//! farmer and leaves a proof record at the address derived from the
//! commitment; that record is what refuses every later submission of the
//! same commitment. The mint obeys the program state's own derived address
//! and nothing else, so no key exists that could mint on the side.
//!
//! - [`address`]: deterministic addressing, computed by `anchor_lang`.
//! - [`verification`]: the structural check of a proof.
//! - [`state`]: the records kept, each with its view.
//! - [`layout`]: the bytes under which the program's records are persisted.
//! - [`ledger`]: the keyed presence map that holds them.
//! - [`token`]: the minting capability.
//! - [`program`]: the operations `initialize` and `verify_and_mint`.
//! - [`guarantees`]: what is proved of the operations across calls.

pub mod address;
pub mod error;
pub mod guarantees;
pub mod layout;
pub mod ledger;
pub mod program;
pub mod state;
pub mod token;
pub mod verification;

pub use error::KisanError;
pub use program::{initialize, verify_and_mint, Initialize, VerifyAndMint};
pub use state::{ProgramState, ProofRecord};
