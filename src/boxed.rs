use vstd::prelude::*;

use crate::describe::Describe;

verus! {

/// An owned error with its concrete type erased: what it renders as, and the
/// error that caused it, if any.
#[derive(Debug)]
pub struct BoxError {
    message: String,
    source: Option<Box<BoxError>>,
}

impl BoxError {
    /// The texts of the causes below this error, nearest first.
    pub closed spec fn causes(&self) -> Seq<Seq<char>>
        decreases self,
    {
        match self.source {
            None => Seq::empty(),
            Some(s) => seq![s.message@] + s.causes(),
        }
    }

    /// An error that renders as `message` and has no cause.
    pub fn new(message: String) -> (r: BoxError)
        ensures
            r.text() == message@,
            r.causes() == Seq::<Seq<char>>::empty(),
    {
        BoxError { message, source: None }
    }

    /// An error that renders as `message` and was caused by `source`.
    pub fn with_source(message: String, source: BoxError) -> (r: BoxError)
        ensures
            r.text() == message@,
            r.causes() == seq![source.text()] + source.causes(),
    {
        BoxError { message, source: Some(Box::new(source)) }
    }

    /// Renders this error.
    pub fn to_string(&self) -> (r: String)
        ensures
            r@ == self.text(),
    {
        self.message.clone()
    }

    /// The error that caused this one, if any.
    pub fn source(&self) -> (r: Option<&BoxError>)
        ensures
            r is Some <==> self.causes().len() > 0,
            r matches Some(s) ==> s.text() == self.causes()[0] && s.causes() == self.causes().drop_first(),
    {
        match &self.source {
            None => None,
            Some(s) => {
                assert(self.causes().drop_first() =~= s.causes());
                Some(&**s)
            },
        }
    }
}

impl Describe for BoxError {
    closed spec fn text(&self) -> Seq<char> {
        self.message@
    }

    fn describe(&self) -> (r: String) {
        self.to_string()
    }
}

/// An error value that can be stored as the cause of a `Context`: it renders
/// as `text()` and converts into a `BoxError` that keeps its chain of causes.
pub trait IntoBoxError: Describe + Sized {
    /// The texts of the causes below this error, nearest first.
    spec fn causes(&self) -> Seq<Seq<char>>;

    /// Erases the concrete type of this error.
    fn into_box_error(self) -> (r: BoxError)
        ensures
            r.text() == self.text(),
            r.causes() == self.causes(),
    ;
}

/// The texts of `e` and of each of its causes, outermost first: what a report
/// that follows the causes one by one prints.
pub open spec fn chain<E: IntoBoxError>(e: E) -> Seq<Seq<char>> {
    seq![e.text()] + e.causes()
}

impl IntoBoxError for BoxError {
    open spec fn causes(&self) -> Seq<Seq<char>> {
        BoxError::causes(self)
    }

    fn into_box_error(self) -> (r: BoxError) {
        self
    }
}

impl IntoBoxError for String {
    open spec fn causes(&self) -> Seq<Seq<char>> {
        Seq::empty()
    }

    fn into_box_error(self) -> (r: BoxError) {
        BoxError::new(self)
    }
}

impl<'a> IntoBoxError for &'a str {
    open spec fn causes(&self) -> Seq<Seq<char>> {
        Seq::empty()
    }

    fn into_box_error(self) -> (r: BoxError) {
        BoxError::new(self.to_owned())
    }
}

} // verus!
