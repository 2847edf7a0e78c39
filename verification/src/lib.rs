//! Authentication and authorization core of a blog REST backend.
//!
//! The library covers the token codec (signed, time-bound identity claims),
//! the bearer-token identity extractor, the ownership/role access policy,
//! and the pure decision logic of the user and post handlers. Network I/O,
//! routing and the document store live outside the library and hand it plain
//! values.

pub mod auth;
pub mod error;
pub mod extractor;
pub mod models;
pub mod object_id;
pub mod passwords;
pub mod policy;
pub mod post_handler;
pub mod text;
pub mod user_handler;
