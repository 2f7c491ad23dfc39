use vstd::prelude::*;

verus! {

/// The error of an operation that targeted an actor which had already terminated.
///
/// The protocol itself produces it: when a request or a close signal cannot be handed to the
/// actor any more, or when no answer can be obtained from it. Every error type of a
/// [`Context`](crate::context::Context) can be built from it.
#[derive(Clone, Copy, Debug, PartialEq, Eq, Structural)]
pub struct ClosedError;

impl ClosedError {
    /// The text that stands for this error wherever it is shown to a reader.
    pub open spec fn text() -> Seq<char> {
        "ClosedError"@
    }

    /// The text of this error as an owned string.
    pub fn message(&self) -> (r: String)
        ensures
            r@ == Self::text(),
    {
        "ClosedError".to_owned()
    }
}

} // verus!
