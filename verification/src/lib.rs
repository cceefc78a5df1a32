//! A verified core for a command-line package-registry lookup tool.
//!
//! The library interprets command-line arguments, builds the registry
//! request URL, and renders a package-metadata record as either a
//! fixed-width report or a single selected field. All of it is exact:
//! every public function's `ensures` pins the produced text down to the
//! character.

pub mod args;
pub mod client;
pub mod format;
pub mod record;
pub mod text;
