//! Board events over a federated event store: the content model of posts,
//! replies and votes, the rule on reply relations, and the requests and
//! thread assembly of the board operations.
pub mod admin;
pub mod api;
pub mod board;
pub mod error;
pub mod events;
pub mod room;
pub mod service;
