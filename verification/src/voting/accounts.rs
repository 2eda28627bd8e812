//! The voting program's accounts.
pub mod candidate_account;
pub mod poll_account;

pub use candidate_account::CandidateAccount;
pub use poll_account::PollAccount;
