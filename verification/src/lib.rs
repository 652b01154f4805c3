//! A small multi-tenant task-tracking service: users register and sign in,
//! receive a signed bearer token, and perform CRUD operations on tasks they
//! own. Every task operation is scoped to the authenticated identity; a task
//! owned by someone else is indistinguishable from a missing one.

pub mod error;
pub mod text;
pub mod token;
pub mod user;
pub mod task;
pub mod routes;
