//! A competitive-programming judge: verdict types, the output comparator,
//! the verdict classifier, the supervisor's polling decisions and the
//! system-call policy of the sandbox.

pub mod classify;
pub mod compare;
pub mod filter;
pub mod launch;
pub mod paths;
pub mod policy;
pub mod session;
pub mod status;
pub mod supervisor;
pub mod text;
pub mod verdict;
