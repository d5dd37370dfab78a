//! Semver policy engine for bumping a workspace member: classify how severe a
//! version change is, and decide whether a dependent's requirement must change.

pub mod bump;
pub mod changelog;
pub mod prompt;
pub mod req;
pub mod semver_calls;
pub mod version;

pub use changelog::extract_unreleased;
pub use bump::{bump_kind, update_kind_for, updated_req, BumpKind, SemverUpdateKind};
pub use prompt::member_prompt;
pub use req::{parse_req, req_into_string, to_min_req, Comparator, Op, VersionReq};
pub use version::{parse_version, ParseError, Version};
