use vstd::prelude::*;

verus! {

/// Why a completer or an awaitable could not deliver.
#[derive(Clone, Copy, Debug, PartialEq, Eq, Structural)]
pub enum Error {
    /// The value was already produced, or already handed to the consumer.
    AlreadyCompleted,
    /// The completer went away without producing a value.
    CompleterDropped,
}

impl Error {
    /// The text shown for each error.
    pub open spec fn text(self) -> Seq<char> {
        match self {
            Error::AlreadyCompleted => "future already polled to completion"@,
            Error::CompleterDropped => "Completer dropped before sending completion"@,
        }
    }

    /// Human-readable description of the error.
    pub fn message(&self) -> (res: &'static str)
        ensures
            res@ == self.text(),
    {
        match self {
            Error::AlreadyCompleted => "future already polled to completion",
            Error::CompleterDropped => "Completer dropped before sending completion",
        }
    }
}

} // verus!
