use vstd::prelude::*;

use crate::boxed::{chain, BoxError, IntoBoxError};
use crate::context::{rendered, separator, wrap_view, Context};
use crate::describe::Describe;

verus! {

/// A wrapped failure renders as the context, `": "`, and the failure's own
/// text.
pub proof fn lemma_failure_display<E: IntoBoxError, D: Describe>(e: E, context: D)
    ensures
        rendered(wrap_view(e, context)) == context.text() + separator() + e.text(),
{
}

/// The cause that a wrapped failure hands out renders as the failure itself
/// and has the same causes below it.
pub proof fn lemma_cause_lookup<E: IntoBoxError, D>(e: E, context: D)
    ensures
        forall|s: BoxError|
            #[trigger] chain(s) == wrap_view(e, context).cause ==> s.text() == e.text()
                && s.causes() == e.causes(),
{
    assert forall|s: BoxError| #[trigger]
        chain(s) == wrap_view(e, context).cause implies s.text() == e.text() && s.causes()
        == e.causes() by {
        assert(chain(s)[0] == s.text());
        assert(chain(s).drop_first() =~= s.causes());
        assert(chain(e).drop_first() =~= e.causes());
    }
}

/// Wrapping a wrapped failure again puts the new context in front: the result
/// renders as `c2: c1: e`, and its causes are the inner context followed by
/// the failure and the failure's causes.
pub proof fn lemma_nested_display<E: IntoBoxError, D1: Describe, D2: Describe>(e: E, c1: D1, c2: D2)
    ensures
        forall|inner: Context<D1>|
            inner@ == wrap_view(e, c1) ==> {
                &&& rendered(#[trigger] wrap_view(inner, c2)) == c2.text() + separator() + c1.text()
                    + separator() + e.text()
                &&& wrap_view(inner, c2).cause == seq![c1.text() + separator() + e.text()] + chain(e)
            },
{
    assert forall|inner: Context<D1>| inner@ == wrap_view(e, c1) implies {
        &&& rendered(#[trigger] wrap_view(inner, c2)) == c2.text() + separator() + c1.text()
            + separator() + e.text()
        &&& wrap_view(inner, c2).cause == seq![c1.text() + separator() + e.text()] + chain(e)
    } by {
        assert(c2.text() + separator() + c1.text() + separator() + e.text() =~= c2.text()
            + separator() + (c1.text() + separator() + e.text()));
    }
}

} // verus!
