//! A certificate registry with negotiated ownership transfer.
//!
//! The registry issues revocable certificates to owner identities and moves
//! ownership between identities through a handshake: a transfer is initiated
//! by the owner, then accepted or rejected by the recipient or cancelled by
//! the sender, and an accepted transfer is completed. Per identity it indexes
//! the transfers that await the identity's answer, and per certificate it
//! keeps an append-only audit trail of completed transfers.
//!
//! The modules, leaves first:
//!
//! - [`error`]: the categorical failures.
//! - [`address`]: identities.
//! - [`store`]: a keyed table of records.
//! - [`certificate`]: certificates, their issuance and revocation.
//! - [`history`]: audit entries and trails.
//! - [`events`]: the notice of each transition.
//! - [`pending`]: the list of transfers that await one identity.
//! - [`transfer`]: transfer requests and their state machine.
//! - [`state`]: the registry as a mathematical value, each call as a
//!   function on it, and what holds of it at all times.
//! - [`calls`]: calls as values, and sequences of calls.
//! - [`contract`]: the registry itself.
//! - [`laws`]: what holds of every registry through every sequence of calls.
//!
//! Proving that a caller controls an identity, reading the ledger clock and
//! publishing notices are the caller's part: every call that needs them takes
//! the identity and the time as arguments and returns the notice.

pub mod address;
pub mod calls;
pub mod certificate;
pub mod contract;
pub mod error;
pub mod events;
pub mod history;
pub mod laws;
pub mod pending;
pub mod state;
pub mod store;
pub mod transfer;
