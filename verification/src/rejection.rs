//! The error of an invocation.
use vstd::prelude::*;
use vstd::std_specs::convert::FromSpecImpl;

verus! {

/// The one error an invocation can end with.
///
/// Every extractor has an error type of its own. An invocation has a single
/// one, so the error of the extractor that failed is converted into a
/// `Rejection`, which keeps the reason it gave and forgets its type. Any error
/// type can take part by implementing `Into<Rejection>`; `String` does already.
#[derive(Debug)]
pub struct Rejection {
    /// What the failed extractor gave as its reason.
    pub reason: String,
}

impl View for Rejection {
    type V = Seq<char>;

    open spec fn view(&self) -> Seq<char> {
        self.reason@
    }
}

impl Rejection {
    /// A rejection for the given reason.
    pub fn new(reason: String) -> (rejection: Self)
        ensures
            rejection.reason == reason,
    {
        Rejection { reason }
    }

    /// The reason, as text.
    pub fn describe(&self) -> (reason: &str)
        ensures
            reason@ == self@,
    {
        self.reason.as_str()
    }
}

impl From<String> for Rejection {
    fn from(reason: String) -> (rejection: Self) {
        Rejection { reason }
    }
}

impl FromSpecImpl<String> for Rejection {
    open spec fn obeys_from_spec() -> bool {
        true
    }

    open spec fn from_spec(reason: String) -> Self {
        Rejection { reason }
    }
}

} // verus!
