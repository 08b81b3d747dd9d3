//! Failures that the engine reports.

use vstd::prelude::*;

verus! {

/// A failure reported by the engine, carrying its diagnostic text.
#[derive(Debug, PartialEq, Eq)]
pub struct Error {
    message: String,
}

impl View for Error {
    type V = Seq<char>;

    closed spec fn view(&self) -> Seq<char> {
        self.message@
    }
}

impl Error {
    /// An error with the engine's diagnostic `message`.
    pub fn new(message: String) -> (r: Error)
        ensures
            r@ == message@,
    {
        Error { message }
    }

    /// The engine's diagnostic text.
    pub fn message(&self) -> (r: &str)
        ensures
            r@ == self@,
    {
        self.message.as_str()
    }
}

/// The outcome of an engine call that reports failure by handing back a
/// diagnostic: success when there is none, else an error carrying it.
pub fn engine_result(diagnostic: Option<String>) -> (r: Result<(), Error>)
    ensures
        diagnostic is None <==> r is Ok,
        diagnostic is Some ==> r is Err && r->Err_0@ == diagnostic->Some_0@,
{
    match diagnostic {
        None => Ok(()),
        Some(message) => Err(Error::new(message)),
    }
}

} // verus!
