//! The verified core of an OpenSubsonic server that merges the libraries of
//! several upstream servers: aggregation-key templates, authentication,
//! nexus identifiers, the SQL text of the library queries, the parameters
//! forwarded upstream, and the decisions of each endpoint and of the scanner.

pub mod text;
pub mod decompose;
pub mod template;
pub mod token;
pub mod config;
pub mod nexus;
pub mod error;
pub mod auth;
pub mod sql;
pub mod queries;
pub mod proxy;
pub mod extract;
pub mod handlers;
pub mod scanner;
