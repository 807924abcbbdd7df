//! What a host decides about one job: whether a request may use its identity,
//! whether it is to be launched, reported, reconciled, cancelled or abandoned.
//!
//! A host reads the evidence that the decisions here ask for, and carries out
//! the steps that they name; nothing here touches a file, a lock or a process.
pub mod payload;
pub mod identity;
pub mod evidence;
pub mod files;
pub mod query;
pub mod cancel;
pub mod resolve;
pub mod submit;
pub mod turn;
