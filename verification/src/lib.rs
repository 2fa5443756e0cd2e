//! A REST facade for a product catalogue that lives behind a GraphQL API.
//!
//! The crate holds every decision that the service takes and none of its
//! I/O: it admits or rejects the HTTP method, splits the path, selects the
//! route, renders the GraphQL request, describes the call to the backend and
//! shapes the answer. Each step is an executable function with a contract
//! over a small mathematical model. Whoever carries the requests (reads them
//! from the wire, sends the call, reads and writes JSON) drives the steps:
//! `operation::dispatch` first and, where that asks for the backend,
//! `Operation::backend_call` before the call and `Operation::respond` after
//! it. The module `laws` states what holds of the steps taken together.

pub mod text;
pub mod method;
pub mod path;
pub mod route;
pub mod query;
pub mod response;
pub mod fault;
pub mod settings;
pub mod backend;
pub mod operation;
pub mod laws;
