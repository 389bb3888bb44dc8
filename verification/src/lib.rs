//! Verification pipeline and settlement orchestrator of a payment facilitator.
//!
//! A facilitator decides, on behalf of a resource server, whether a signed
//! off-chain payment authorization satisfies a set of payment requirements
//! and, if it does, drives the transfer on chain at most once.
//!
//! Everything here is a function of plain values. Signature recovery, the
//! clock and the chain are collaborators of the caller: what they report is
//! handed in, and what the caller must ask of them next is handed back.

pub mod address;
pub mod amount;
pub mod decode;
pub mod funds;
pub mod guarantees;
pub mod matcher;
pub mod orchestrator;
pub mod outcome;
pub mod payment;
pub mod pipeline;
pub mod record;
pub mod registry;
pub mod reply;
pub mod signature;
pub mod table;
pub mod taxonomy;
pub mod text;
pub mod timing;
