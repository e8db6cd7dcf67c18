//! Core logic of a directory-to-object-storage uploader.
//!
//! A run stages the regular files of one directory as upload jobs, then
//! attempts to store each job's payload under a destination blob name,
//! bounded by a concurrency limit and subject to cooperative cancellation.
//! Every stage reports through a stream of progress, info and error events.
//!
//! The library is pure: listing a directory, reading files, talking to the
//! storage service and measuring time are done by the surrounding program,
//! which hands their results in as plain values and drives the functions
//! here for every decision.

pub mod config;
pub mod coordinator;
pub mod dispatch;
pub mod event;
pub mod job;
pub mod pipeline;
pub mod scan;
