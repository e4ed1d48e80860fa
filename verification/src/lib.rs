//! Recovering an archive's table of contents from a remote resource without
//! transferring the whole payload.
//!
//! The crate holds two verified components. The range sequencer
//! ([`sequencer::PartialRangeIter`]) turns a byte interval and a chunk size
//! into the ordered, contiguous, non-overlapping windows that cover it. The
//! resolver ([`resolver::Resolver`]) is a state machine that decides, from
//! each transport response, which request to issue next — a metadata probe,
//! a length query, then range requests over the resource's tail — and hands
//! each fetched window to the zip format reader to recover the entry names.
//! A driver that owns the actual transport performs each action the resolver
//! asks for and feeds the outcome back.

pub mod decimal;
pub mod errors;
pub mod resolver;
pub mod sequencer;
