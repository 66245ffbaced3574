//! Client-side protocol core for handing a serialized batch to a ledger's REST
//! endpoint and asking for its commitment status.
//!
//! The crate plans requests and reads replies; it performs no I/O itself.
//! Submitting is [`submit_batches`], then [`submission_link`] on the reply;
//! polling is [`wait_for_batch`], then [`polled_status`] on the reply, repeated
//! by the caller until [`StatusResponse::is_finished`].

pub mod error;
pub mod exchange;
pub mod json;
pub mod laws;
pub mod status;
pub mod text;
pub mod url;

pub use crate::error::SubmitError;
pub use crate::exchange::{
    batches_url, polled_status, status_url, submission_link, submit_batches, wait_for_batch,
    MediaType, Method, Reply, Request, SERVICE_UNAVAILABLE,
};
pub use crate::status::{BatchStatus, InvalidTransaction, Link, StatusResponse};
pub use crate::url::{check_scheme, validate_url};
