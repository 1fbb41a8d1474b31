//! Provenance and invalidation metadata for instances projected from files.
//!
//! A live-sync engine turns files into a tree of instances. For every instance
//! it has to know where the instance came from, which paths would change it,
//! and which paths below it are kept out of tracking. This crate is the model
//! of that knowledge:
//!
//! - [`IgnoreGlob`]: one exclusion rule, a glob anchored to a directory;
//! - [`InstanceContext`]: the rules that a subtree inherits, shared by its
//!   instances;
//! - [`InstigatingSource`]: what an instance was made from;
//! - [`InstanceMetadata`]: the record that holds the three together.
//!
//! Paths are held as platform-independent text (see [`path`]). Globs are held
//! as their pattern text and matched by the `globset` crate (see [`glob`]).
//! What holds of the model as a whole is stated and proved in [`laws`].

pub mod context;
pub mod glob;
pub mod ignore;
pub mod laws;
pub mod metadata;
pub mod path;
pub mod project;
pub mod source;

pub use crate::context::InstanceContext;
pub use crate::ignore::IgnoreGlob;
pub use crate::metadata::InstanceMetadata;
pub use crate::project::ProjectNode;
pub use crate::source::InstigatingSource;
