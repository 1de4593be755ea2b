//! The error that carries a free-form message.

pub mod nan;

use vstd::prelude::*;
use vstd::string::*;

verus! {

/// An error described by a message of the caller's choosing.
#[derive(Debug)]
pub struct MainErr {
    details: String,
}

impl View for MainErr {
    type V = Seq<char>;

    /// The message that the error was made with.
    closed spec fn view(&self) -> Seq<char> {
        self.details@
    }
}

impl MainErr {
    /// Makes the error that carries `details`.
    pub fn e(details: &str) -> (r: Self)
        ensures
            r@ == details@,
    {
        Self { details: String::from_str(details) }
    }

    /// The message that the error was made with.
    pub fn details(&self) -> (r: &str)
        ensures
            r@ == self@,
    {
        self.details.as_str()
    }

    /// The text shown for the error: the message between `Err[` and `]`.
    pub open spec fn shown(&self) -> Seq<char> {
        "Err["@ + self@ + "]"@
    }

    /// Renders the error as text.
    pub fn message(&self) -> (r: String)
        ensures
            r@ == self.shown(),
    {
        let mut out = String::from_str("Err[");
        out.append(self.details.as_str());
        out.append("]");
        out
    }
}

} // verus!
