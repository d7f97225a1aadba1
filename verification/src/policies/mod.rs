//! Who may see each protected column, and how the rules of two values combine.
pub mod aggregate_access;
pub mod answers;
pub mod automated_analysis;
pub mod context;
pub mod employers_release;
pub mod k_anonymity;
pub mod misc;
pub mod profile;
pub mod user_email;

pub use aggregate_access::AggregateAccessPolicy;
pub use answers::AnswerAccessPolicy;
pub use automated_analysis::{AutomatedAnalysisPolicy, AUTOMATED_ANALYSIS_REASON};
pub use context::{AccessReason, PolicyContext};
pub use employers_release::EmployersReleasePolicy;
pub use k_anonymity::KAnonymityPolicy;
pub use misc::QueryableOnly;
pub use profile::UserProfilePolicy;
pub use user_email::UserEmailPolicy;
