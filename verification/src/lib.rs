//! An over-the-counter escrow engine.
//!
//! Two parties trade two different denominations without trusting each
//! other. The creator of a deal deposits one asset and names what is wanted in
//! return; the custodian holds the deposit until someone supplies the
//! counter-terms, the creator cancels, or the timeout passes and the creator
//! withdraws.
//!
//! The engine decides whether an operation is allowed and which transfers
//! follow from it. It never moves funds itself: every successful operation
//! returns a [`response::Response`] that lists the transfers for the custodian
//! to execute together with the change of the [`state::Ledger`].
//!
//! * [`state`] holds the deal records and the ledger that owns them.
//! * [`msg`] holds the requests and the query answers.
//! * [`contract`] holds the operations.
//! * [`model`] says, over mathematical values, what each operation does.
//! * [`laws`] proves what holds of the model over one and over many calls.

pub mod bank;
pub mod contract;
pub mod decimal;
pub mod error;
pub mod laws;
pub mod model;
pub mod msg;
pub mod response;
pub mod state;
