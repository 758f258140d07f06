//! Commit message generation from staged changes.
//!
//! A prompt is composed from a user-supplied template and the staged diff,
//! handed to an external text generator, and the generator's answer becomes
//! the commit message. This library holds the rules of that exchange; running
//! the programs and touching files is left to the caller.
//!
//! - [`validation`] bounds the size of the prompt, in bytes, before the prompt
//!   is built, and [`prompt`] builds it.
//! - [`config`] holds the configuration record and says when one is usable.
//! - The generator's module prepares what the generator is asked and reads
//!   its answer; [`git`] does the same for the version control commands, over
//!   the outcomes described in [`process`].
//! - [`output`] renders the message as a JSON document.
//! - [`encoding`], [`decimal`] and [`whitespace`] supply the notions the
//!   others are stated in: byte lengths, decimal notation, trimming.

pub mod claude;
pub mod config;
pub mod decimal;
pub mod encoding;
pub mod git;
pub mod output;
pub mod process;
pub mod prompt;
pub mod validation;
pub mod whitespace;
