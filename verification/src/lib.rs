//! Verified core of the Alexandria e-book library: content fingerprints, the
//! on-disk layout of the content-addressed book store, the import pipeline as
//! a state machine, the library index and the reading-state rules.
//!
//! The crate performs no I/O. A driver reads and writes files, runs the
//! converters and reports back what happened; every decision is taken here.

pub mod assistant;
pub mod error;
pub mod fingerprint;
pub mod fonts;
pub mod index;
pub mod layout;
pub mod pipeline;
pub mod record;
pub mod shelf;
pub mod state;
pub mod text;
