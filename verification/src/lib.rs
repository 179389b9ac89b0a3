//! Client-side core of a reporter of test sessions and test results.
//!
//! The reporter creates sessions with one request each and collects test
//! results in batches, which a background worker sends when a batch is full or
//! a flush interval has passed. This library holds what the reporter decides
//! and computes; waiting, sending and the channel between callers and worker
//! are the caller's part.
//!
//! - `models`, `errors`: the data model and the error taxonomy.
//! - `batcher`, `sink`: the intake, the worker's state machine and the log of
//!   failed flushes.
//! - `guarantees`: what holds of whole runs of the worker.
//! - `wire`, `ingress`, `cli`: the requests on the wire, and the meaning of
//!   the service's answers.
//! - `labels`, `ident`, `input`: requests from the texts that callers hand in.
//! - `json`, `text`: JSON documents and small text operations.

pub mod batcher;
pub mod cli;
pub mod errors;
pub mod guarantees;
pub mod ident;
pub mod ingress;
pub mod input;
pub mod json;
pub mod labels;
pub mod models;
pub mod sink;
pub mod text;
pub mod wire;

pub use errors::ReporterError;
pub use errors::GREENER_REPORTER_ERROR;
pub use errors::GREENER_REPORTER_ERROR_INGRESS;
pub use errors::GREENER_REPORTER_ERROR_INVALID_ARGUMENT;
pub use models::Label;
pub use models::SessionRequest;
pub use models::TestcaseRequest;
pub use models::TestcaseStatus;
pub use models::TestcasesRequest;
