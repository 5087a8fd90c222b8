//! Core rules of the novel platform API: request validation, paging windows,
//! listing queries, comment nesting, login decisions, the transactional-outbox
//! write workflow and the outbox publishing loop.
//!
//! Everything that talks to PostgreSQL, NATS, Meilisearch or HTTP lives in the
//! application crate; this crate decides what those calls should be and what
//! their answers mean.

pub mod error;
pub mod pagination;
pub mod validation;
pub mod text;
pub mod slug;
pub mod novels;
pub mod events;
pub mod outbox;
pub mod workflow;
pub mod responses;
pub mod chapters;
pub mod reviews;
pub mod comments;
pub mod forums;
pub mod statements;
pub mod admin;
pub mod bookmarks;
pub mod notifications;
pub mod search;
pub mod users;
pub mod sessions;
pub mod request_id;
