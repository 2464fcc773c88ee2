//! Scaffolds and patches a two-sided program pair: an untrusted host
//! driver and a guest program that runs inside a proving environment.
//! The core is a patch engine over freshly generated source and manifest
//! files — a manifest dependency partitioner, a line-targeted patcher, a
//! feature-flag rewriter, and a block-replacement transformer — sequenced
//! by a strictly ordered pipeline.  Everything here works on plain lines
//! of text; reading files, running the external generator, and fetching
//! starter files belong to the surrounding program.

pub mod orchestrator;
pub mod partition;
pub mod patch;
pub mod pr;
pub mod project;
pub mod templates;
pub mod rewrite;
pub mod scaffold;
pub mod text;
pub mod transform;
