//! Handlers that take whatever they need.
//!
//! A handler is a callable of any number of parameters, up to twelve. Each
//! parameter is rebuilt ("extracted") from one shared input value and one
//! shared context, by the [`Extractor`] of the parameter's type. What the
//! handler gives back is converted into the type of the input value.
//!
//! An invocation ([`Handler::invoke`]) runs in a fixed order: the value it is
//! given is converted into the input value; the parameters are extracted from
//! left to right, each from a clone of the input value; the first extraction
//! that fails ends the invocation with its [`Rejection`]; otherwise the handler
//! is called and its output converted.
//!
//! That protocol is written once. It reaches every number of parameters through
//! two adapters: a tuple of extractable types can be extracted as a whole
//! ([`Arguments`]), and a callable can be applied to such a tuple
//! ([`Callable`]).
//!
//! What an invocation gives is stated as a relation between what goes in and
//! what comes out, built from what the extractors, the handler, `Clone` and
//! `Into` say of themselves. Nothing is asked of them; where they are
//! functions of what they are given, so is the invocation.
use vstd::prelude::*;

mod arguments;
mod callable;
mod conversion;
mod extractors;
mod function_impl;
mod laws;
mod rejection;
mod tuples;

pub use arguments::{
    attach, extend, extended, extract_one, extracts, lemma_extended_deterministic,
    lemma_extended_rejection, pure_extraction, rejected_in, rejected_last, Arguments,
};
pub use callable::Callable;
pub use conversion::converts;
pub use extractors::{passed_through, State};
pub use laws::{
    lemma_first_rejection_decides, lemma_invoke_deterministic, lemma_invoked_deterministic,
    lemma_rejection_is_final, lemma_response_is_converted, lemma_round_trip,
    lemma_success_has_no_order, lemma_without_parameters, pure_handler,
};
pub use rejection::Rejection;

verus! {

/// A type that can be rebuilt from an input value of type `T` in a context of
/// type `State`.
///
/// An extraction gets a copy of the input value that belongs to it alone, and
/// read access to the context. It either gives the value or says why it
/// cannot. For a type to be a parameter of a handler, that error must convert
/// into a [`Rejection`].
pub trait Extractor<T, State>: Sized {
    /// Why an extraction failed.
    type Error;

    /// Rebuilds a value from `topic` and `context`.
    fn extract(topic: T, context: &State) -> Result<Self, Self::Error>;
}

/// A callable that can be invoked on an input value of type `T` in a context of
/// type `State`, to give a response of the input's type.
///
/// There is no need to implement it: every function or closure that can be
/// cloned, whose parameters `Args` can all be extracted and whose output
/// converts into `T`, is a handler.
pub trait Handler<T, Args, State>: Clone {
    /// What an invocation gives when it succeeds.
    type Response: Into<T>;

    /// What an invocation gives when it fails.
    type Error;

    /// Whether the handler may be invoked on the input value `input` in
    /// `state`.
    spec fn admits(&self, input: T, state: State) -> bool;

    /// Whether `r` is what invoking the handler on the input value `input` in
    /// `state` may give.
    spec fn invoked(&self, input: T, state: State, r: Result<Self::Response, Self::Error>) -> bool;

    /// Invokes the handler: converts `frame` into the input value, extracts the
    /// parameters from it and from `state`, calls the handler with them and
    /// converts what it gives back.
    fn invoke<Input: Into<T>>(&self, frame: Input, state: State) -> (r: Result<
        Self::Response,
        Self::Error,
    >)
        requires
            forall|input: T| converts(frame, input) ==> #[trigger] self.admits(input, state),
        ensures
            exists|input: T| converts(frame, input) && #[trigger] self.invoked(input, state, r),
    ;
}

/// What [`Handler::invoke`] ensures: `r` is what the handler may give for an
/// input value that `frame` converts into.
pub open spec fn invocation<H, T, Args, State, Input>(
    handler: &H,
    frame: Input,
    state: State,
    r: Result<H::Response, H::Error>,
) -> bool where H: Handler<T, Args, State>, Input: Into<T> {
    exists|input: T| converts(frame, input) && #[trigger] handler.invoked(input, state, r)
}

} // verus!
