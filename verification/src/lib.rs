//! Session model of an eSCL scanner emulator: scan jobs, their page budgets,
//! and the decisions taken when a client polls for the next document.

pub mod cli;
pub mod escl_server;
pub mod job_id;
pub mod laws;
pub mod logging;
pub mod model;
pub mod pagination;
pub mod session;
pub mod text;
