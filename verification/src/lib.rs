//! Typed environment variables for build scripts.
//!
//! A build script declares the variables it expects, each with the type of
//! its value ([`Envar`]). It looks each name up in the environment and hands
//! the result to [`Envar::load`], which reads the text by the declared type
//! and gives a [`LoadedEnvar`] or an [`EnvarError`]. [`LoadedEnvar::export`]
//! gives the directive line that makes Cargo pass the variable on to the
//! compiler.
//!
//! The library itself touches neither the environment nor standard output:
//! every function here is a function of its arguments, and says in its
//! contract what it returns. The module [`laws`] holds what follows for
//! loading and exporting as a whole.

pub mod boolean;
pub mod bootstrap;
pub mod decimal;
pub mod envar;
pub mod error;
pub mod laws;
pub mod loaded;

pub use bootstrap::init;
pub use envar::Envar;
pub use error::{EnvarError, IntWidth};
pub use loaded::LoadedEnvar;
