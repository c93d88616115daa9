//! Generator for context-aware debug-formatting implementations.
//!
//! Given the structural declaration of a data type (a record or an enum,
//! together with the names of the context types declared on it), the library
//! synthesizes the source text of one `DebugWithContext` implementation per
//! declared context, or of a single implementation that is generic over the
//! context when none is declared.

pub mod binder;
pub mod emitter;
pub mod laws;
pub mod model;
pub mod planner;
pub mod scanner;
pub mod text;
