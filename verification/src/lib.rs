//! Retires old posts from a social-media account: walks the account's post
//! history newest to oldest in pages, decides which posts are old enough (and
//! not protected) to delete, and plans the deletions, optionally as a dry run.
//!
//! The crate holds the verified core of that pipeline: the eligibility policy,
//! the paging state machine, the deletion planner and the orchestrator that
//! composes them. The network and file edges live outside the library and hand
//! it plain values.

pub mod config;
pub mod executor;
pub mod fetcher;
pub mod pipeline;
pub mod policy;
pub mod post;
