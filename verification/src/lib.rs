//! Scalar monitoring queries against relational databases.
//!
//! A monitor is a SQL statement that yields one value. This library holds
//! the rules of running one: which engine a connection targets
//! ([`backend`]), what a run does next and what it logs ([`executor`]),
//! how a result set is reduced to its single value ([`extract`]), how a
//! connection is tested without running anything ([`validator`]), and what
//! the caller gets back ([`outcome`]). It also holds the model of the
//! metadata that monitors live in ([`metadata`]).
//!
//! The library performs no input or output. The executor and the validator
//! are state machines: the caller opens connections and runs statements,
//! and reports what happened as plain values ([`result_set`]).
//!
//! Every function is verified against a contract over mathematical views
//! of its arguments; [`laws`] states what follows for whole runs.

pub mod backend;
pub mod cadence;
pub mod executor;
pub mod extract;
pub mod greeting;
pub mod laws;
pub mod messages;
pub mod metadata;
pub mod outcome;
pub mod result_set;
pub mod text;
pub mod validator;
