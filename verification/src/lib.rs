pub mod config;
pub mod outcome;
pub mod request;
pub mod scenario;
pub mod vuser;
pub mod sched;
