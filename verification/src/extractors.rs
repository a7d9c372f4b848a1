//! The extractor for the context.
use crate::{converts, Extractor};
use vstd::pervasive::strictly_cloned;
use vstd::prelude::*;

verus! {

/// An extractor for the context itself.
///
/// `State` ignores the input value: it hands the handler the context of the
/// invocation, converted into the type that the handler asks for. An
/// extraction only borrows the context, so what it hands over is a clone.
pub struct State<T>(pub T);

/// `given` is what becomes of `context` on its way into a [`State`]: a clone of
/// what a clone of `context` converts into.
pub open spec fn passed_through<Context: Into<GivenState> + Clone, GivenState: Clone>(
    context: Context,
    given: GivenState,
) -> bool {
    exists|copy: Context, converted: GivenState|
        #![trigger strictly_cloned(context, copy), strictly_cloned(converted, given)]
        {
            &&& strictly_cloned(context, copy)
            &&& converts(copy, converted)
            &&& strictly_cloned(converted, given)
        }
}

impl<T, Context, GivenState> Extractor<T, Context> for State<GivenState> where
    Context: Into<GivenState> + Clone,
    GivenState: Clone,
 {
    type Error = String;

    /// Never fails, and gives the context as [`passed_through`] describes it,
    /// whatever the input value is.
    fn extract(_topic: T, context: &Context) -> (outcome: Result<Self, String>)
        ensures
            outcome is Ok,
            passed_through(*context, outcome->Ok_0.0),
    {
        let copy = context.clone();
        let converted: GivenState = GivenState::from(copy.into());
        let given = converted.clone();
        assert(strictly_cloned(*context, copy) && strictly_cloned(converted, given));
        Ok(State(given))
    }
}

} // verus!
