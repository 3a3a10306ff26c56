use vstd::prelude::*;

verus! {

/// A value that renders as text: the annotations of a `Context` and the
/// errors it wraps.
pub trait Describe {
    /// The text this value renders as.
    spec fn text(&self) -> Seq<char>;

    /// Renders this value.
    fn describe(&self) -> (r: String)
        ensures
            r@ == self.text(),
    ;
}

impl Describe for String {
    open spec fn text(&self) -> Seq<char> {
        self@
    }

    fn describe(&self) -> (r: String) {
        self.clone()
    }
}

impl<'a> Describe for &'a str {
    open spec fn text(&self) -> Seq<char> {
        (*self)@
    }

    fn describe(&self) -> (r: String) {
        (*self).to_owned()
    }
}

} // verus!
