//! Reconstruction of per-task trees of tracing spans and events.
//!
//! The crate assembles lifecycle notifications (span opened, entered, exited,
//! closed, event recorded) into immutable [`tree::Tree`] values, hands each
//! completed root tree to a pluggable [`processor::Processor`], and renders
//! trees with the [`pretty::Pretty`] formatter.

pub mod builder;
pub mod id;
pub mod layer;
pub mod level;
pub mod open_span;
pub mod pretty;
pub mod printer;
pub mod processor;
pub mod registry;
pub mod tag;
pub mod text;
pub mod time;
pub mod tree;
pub mod worker;

pub use layer::ForestLayer;
pub use level::Level;
pub use processor::Processor;
pub use tag::Tag;
