//! The core of a personal workspace that logs notes and routes chats
//! through AI providers.
//!
//! Two subsystems make up the core. The rollover engine tracks the tokens of
//! each conversation and, before the context window of its provider is
//! exceeded, summarises the conversation and continues it in a new one. The
//! job queue holds background work, chiefly the nightly digest, and the
//! scheduler decides what runs when. Both lean on the summary cache, which
//! stores each summary under the hash of what it was made from.
//!
//! # How the pieces fit
//!
//! - [`store`] holds the tables of a workspace; every contract speaks of
//!   their contents, [`store::Tables`].
//! - An operation receives what it takes from its surroundings as arguments:
//!   the instant and the fresh identifiers in [`clock::Stamps`], and what the
//!   AI gateway answered in [`agents::GatewayOutcome`]. What it does is then
//!   a function of its arguments.
//! - The gateway is never called from here. For each operation that may
//!   need an answer there is a function that builds the request
//!   ([`summarizer::Summarizer::append_request`],
//!   [`scheduler::JobScheduler::run_now_request`], ...); the caller sends it
//!   and hands the answer to the operation.
//! - An operation that fails leaves the store as it was.
//! - [`laws`] states what holds across calls.

pub mod agents;
pub mod api;
pub mod clock;
pub mod conversations;
pub mod decimal;
pub mod digest;
pub mod errors;
pub mod excerpts;
pub mod hashing;
pub mod jobs;
pub mod journal;
pub mod keyed;
pub mod laws;
pub mod model_manager;
pub mod orchestrator;
pub mod ranking;
pub mod records;
pub mod resolver;
pub mod rollover;
pub mod scheduler;
pub mod store;
pub mod summaries;
pub mod summarizer;
pub mod text;
pub mod tokens;
