//! Contextual errors that display in the traditional `context: cause` form.
//!
//! A failure is wrapped in a [`Context`] together with a caller-supplied
//! annotation; the wrapped failure stays reachable as the context's cause, so
//! a report can walk the chain one annotation at a time.
pub mod describe;
pub mod boxed;
pub mod context;
pub mod ext;
pub mod laws;

pub use describe::Describe;
pub use boxed::{chain, BoxError, IntoBoxError};
pub use context::{rendered, separator, wrap_view, Context, ContextView};
pub use ext::{ErrorExt, ResultExt};
