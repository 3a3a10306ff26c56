use vstd::prelude::*;

use crate::boxed::IntoBoxError;
use crate::context::{wrap_view, Context};

verus! {

/// Wrapping of an error value that is already in hand.
pub trait ErrorExt: IntoBoxError {
    /// Constructs a `Context` wrapping this error.
    fn ctx<D>(self, context: D) -> (r: Context<D>)
        ensures
            r@ == wrap_view(self, context),
    ;
}

impl<T: IntoBoxError> ErrorExt for T {
    fn ctx<D>(self, context: D) -> (r: Context<D>) {
        Context::new(context, self.into_box_error())
    }
}

/// Wrapping of the failure of a fallible computation; a success passes
/// through unchanged.
pub trait ResultExt<T, E: IntoBoxError> {
    /// The result this value stands for.
    spec fn outcome(&self) -> Result<T, E>;

    /// If this `Result` is an `Err`, wraps the error with `context`.
    fn ctx<D>(self, context: D) -> (r: Result<T, Context<D>>)
        ensures
            match self.outcome() {
                Ok(v) => r == Ok::<T, Context<D>>(v),
                Err(e) => r matches Err(w) && w@ == wrap_view(e, context),
            },
    ;

    /// If this `Result` is an `Err`, invokes `f` on the error and wraps the
    /// error with what it returns; on `Ok`, `f` is not invoked.
    fn with_ctx<D, F: FnOnce(&E) -> D>(self, f: F) -> (r: Result<T, Context<D>>)
        requires
            self.outcome() matches Err(e) ==> f.requires((&e,)),
        ensures
            match self.outcome() {
                Ok(v) => r == Ok::<T, Context<D>>(v),
                Err(e) => r matches Err(w) && f.ensures((&e,), w@.context) && w@ == wrap_view(
                    e,
                    w@.context,
                ),
            },
    ;
}

impl<T, E: IntoBoxError> ResultExt<T, E> for Result<T, E> {
    open spec fn outcome(&self) -> Result<T, E> {
        *self
    }

    fn ctx<D>(self, context: D) -> (r: Result<T, Context<D>>) {
        match self {
            Ok(v) => Ok(v),
            Err(e) => Err(e.ctx(context)),
        }
    }

    fn with_ctx<D, F: FnOnce(&E) -> D>(self, f: F) -> (r: Result<T, Context<D>>) {
        match self {
            Ok(v) => Ok(v),
            Err(e) => {
                let context = f(&e);
                Err(e.ctx(context))
            },
        }
    }
}

} // verus!
