use vstd::prelude::*;

use crate::boxed::{chain, BoxError, IntoBoxError};
use crate::describe::Describe;

verus! {

/// The text `": "` that stands between a context and its cause.
pub open spec fn separator() -> Seq<char> {
    seq![':', ' ']
}

/// What a `Context` is: the annotation, and the texts of the wrapped cause
/// and of each of its own causes, outermost first.
pub ghost struct ContextView<C> {
    pub context: C,
    pub cause: Seq<Seq<char>>,
}

/// The view of a `Context` made from the failure `e` and the annotation
/// `context`.
pub open spec fn wrap_view<E: IntoBoxError, D>(e: E, context: D) -> ContextView<D> {
    ContextView { context, cause: chain(e) }
}

/// The text a `Context` with view `v` renders as: its annotation, `": "`, and
/// the text of its cause.
pub open spec fn rendered<C: Describe>(v: ContextView<C>) -> Seq<char> {
    v.context.text() + separator() + v.cause[0]
}

/// An error providing context for some underlying cause.
#[derive(Debug)]
pub struct Context<C> {
    context: C,
    source: BoxError,
}

impl<C> View for Context<C> {
    type V = ContextView<C>;

    closed spec fn view(&self) -> ContextView<C> {
        ContextView { context: self.context, cause: chain(self.source) }
    }
}

impl<C> Context<C> {
    /// Annotates `source` with `context`.
    pub fn new(context: C, source: BoxError) -> (r: Self)
        ensures
            r@ == wrap_view(source, context),
    {
        Context { context, source }
    }

    /// The wrapped cause; never absent.
    pub fn source(&self) -> (r: Option<&BoxError>)
        ensures
            r matches Some(s) && chain(*s) == self@.cause,
    {
        Some(&self.source)
    }
}

impl<C: Describe> Context<C> {
    /// Renders this error as `context: cause`.
    pub fn to_string(&self) -> (r: String)
        ensures
            r@ == rendered(self@),
    {
        let mut s = self.context.describe();
        let sep = ": ";
        proof {
            reveal_strlit(": ");
        }
        s.append(sep);
        s.append(self.source.to_string().as_str());
        assert(s@ =~= rendered(self@));
        s
    }
}

impl<C: Describe> Describe for Context<C> {
    open spec fn text(&self) -> Seq<char> {
        rendered(self@)
    }

    fn describe(&self) -> (r: String) {
        self.to_string()
    }
}

impl<C: Describe> IntoBoxError for Context<C> {
    open spec fn causes(&self) -> Seq<Seq<char>> {
        self@.cause
    }

    fn into_box_error(self) -> (r: BoxError) {
        let message = self.to_string();
        BoxError::with_source(message, self.source)
    }
}

} // verus!
