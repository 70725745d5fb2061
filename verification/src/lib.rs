//! Verified decision logic of the CGEOS2 command-line client: validation of
//! the one-time code read from standard input, request identifiers, the
//! request plans sent to the Terminal service, and the polling decisions
//! taken on its replies.

pub mod code;
pub mod decimal;
pub mod request_id;
pub mod ids;
pub mod text;
pub mod polling;
pub mod auth;
pub mod output;
pub mod address;
pub mod operations;
pub mod operation_laws;
