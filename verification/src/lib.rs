//! Escrowed payments for dataset queries, settled against proofs of correct
//! execution and a stake-backed challenge window.
//!
//! Three tables of records cooperate:
//!
//! * [`dataset_registry::DatasetRegistry`] is the directory of datasets, their
//!   owners and prices.
//! * [`payment_manager::PaymentManager`] holds one payment and one escrow per
//!   query and settles them.
//! * [`zk_verifier::ZKVerifier`] holds proofs, verification keys and
//!   challenges, and drives the payment manager when a proof is verified or a
//!   challenge is upheld.
//!
//! Every operation is a total function of the tables, its arguments and the
//! outcome of the value transfers it asked for: the caller's identity, the
//! clock and the result of each transfer are passed in by the host.
pub mod primitives;
pub mod hashing;
pub mod dataset_registry;
pub mod payment_manager;
pub mod zk_verifier;
pub mod lifecycle;
