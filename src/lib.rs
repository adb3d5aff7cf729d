//! Worker-side runtime for a serverless job queue: job acquisition, result
//! normalisation, retry policy, liveness pings and the worker loop's decisions.

pub mod downloads;
pub mod endpoint;
pub mod graphql;
pub mod heartbeat;
pub mod infer;
pub mod job_source;
pub mod json;
pub mod logging;
pub mod realtime;
pub mod retry;
pub mod runner;
pub mod submit;
pub mod text;
pub mod worker_loop;
pub mod worker_state;
