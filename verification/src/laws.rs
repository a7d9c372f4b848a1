//! What holds of every invocation.
use crate::{
    converts, extracts, invocation, Arguments, Callable, Extractor, Handler, Rejection,
};
use vstd::pervasive::strictly_cloned;
use vstd::prelude::*;
use vstd::std_specs::convert::IntoSpec;

verus! {

/// A handler is a function of its parameters: cloning it, calling it and
/// converting what it gives back each give one result only.
pub open spec fn pure_handler<Func, Args, T>() -> bool where
    Func: Callable<Args> + Clone,
    Func::Output: Into<T>,
 {
    &&& forall|handler: Func, a: Func, b: Func|
        strictly_cloned(handler, a) && strictly_cloned(handler, b) ==> a == b
    &&& forall|handler: Func, args: Args, a: Func::Output, b: Func::Output|
        handler.yields(args, a) && handler.yields(args, b) ==> a == b
    &&& forall|output: Func::Output, a: T, b: T|
        converts(output, a) && converts(output, b) ==> a == b
}

/// Invoking a handler twice on the same value in the same context gives the
/// same result, where converting the value, the extractors and the handler are
/// functions of what they are given.
pub proof fn lemma_invoke_deterministic<T, Args, State, Func, Input>(
    handler: Func,
    frame: Input,
    state: State,
    r1: Result<T, Rejection>,
    r2: Result<T, Rejection>,
) where
    Func: Callable<Args> + Clone,
    Func::Output: Into<T>,
    Args: Arguments<T, State>,
    Input: Into<T>,

    requires
        forall|a: T, b: T| converts(frame, a) && converts(frame, b) ==> a == b,
        Args::pure(),
        pure_handler::<Func, Args, T>(),
        invocation::<Func, T, Args, State, Input>(&handler, frame, state, r1),
        invocation::<Func, T, Args, State, Input>(&handler, frame, state, r2),
    ensures
        r1 == r2,
{
    let input1 = choose|input: T|
        converts(frame, input) && #[trigger] handler.invoked(input, state, r1);
    let input2 = choose|input: T|
        converts(frame, input) && #[trigger] handler.invoked(input, state, r2);
    lemma_invoked_deterministic(handler, input1, state, r1, r2);
}

/// Invoking a handler twice on the same input value in the same context gives
/// the same result, where the extractors and the handler are functions of what
/// they are given.
pub proof fn lemma_invoked_deterministic<T, Args, State, Func>(
    handler: Func,
    input: T,
    state: State,
    r1: Result<T, Rejection>,
    r2: Result<T, Rejection>,
) where Func: Callable<Args> + Clone, Func::Output: Into<T>, Args: Arguments<T, State>
    requires
        Args::pure(),
        pure_handler::<Func, Args, T>(),
        handler.invoked(input, state, r1),
        handler.invoked(input, state, r2),
    ensures
        r1 == r2,
{
    let e1 = lemma_invoked_extraction(handler, input, state, r1);
    let e2 = lemma_invoked_extraction(handler, input, state, r2);
    Args::lemma_deterministic(input, state, e1, e2);
}

/// The order in which the parameters are extracted has no part in a success:
/// an invocation gives `response` exactly when each parameter, taken alone,
/// can be extracted, and the output of the handler for them converts into
/// `response`.
pub proof fn lemma_success_has_no_order<T, Args, State, Func>(
    handler: Func,
    input: T,
    state: State,
    response: T,
) where Func: Callable<Args> + Clone, Func::Output: Into<T>, Args: Arguments<T, State>
    ensures
        handler.invoked(input, state, Ok(response)) <==> exists|
            copy: Func,
            args: Args,
            output: Func::Output,
        |
            {
                &&& strictly_cloned(handler, copy)
                &&& Args::each_extracted(input, state, args)
                &&& #[trigger] copy.yields(args, output)
                &&& converts(output, response)
            },
{
    assert forall|args: Args|
        Args::extracted(input, state, Ok(args)) <==> #[trigger] Args::each_extracted(
            input,
            state,
            args,
        ) by {
        Args::lemma_success(input, state, args);
    }
    if handler.invoked(input, state, Ok(response)) {
        let (copy, args, output) = choose|copy: Func, args: Args, output: Func::Output|
            {
                &&& strictly_cloned(handler, copy)
                &&& Args::extracted(input, state, Ok(args))
                &&& #[trigger] copy.yields(args, output)
                &&& converts(output, response)
            };
        assert(Args::each_extracted(input, state, args));
        assert(copy.yields(args, output));
    }
}

/// The first rejection decides: where each extraction is a function of what
/// it is given, and the parameter at `position` is rejected after those before
/// it were extracted, the extraction ends with that rejection and in no other
/// way.
pub proof fn lemma_first_rejection_decides<T, Args, State>(
    input: T,
    state: State,
    position: nat,
    rejection: Rejection,
    r: Result<Args, Rejection>,
) where Args: Arguments<T, State>
    requires
        Args::pure(),
        position < Args::arity(),
        Args::rejected_at(input, state, position, rejection),
        Args::extracted(input, state, r),
    ensures
        r == Err::<Args, Rejection>(rejection),
{
    Args::lemma_rejection(input, state, rejection);
    Args::lemma_deterministic(input, state, r, Err(rejection));
}

/// Once a parameter has been rejected the invocation is over: where each
/// extraction is a function of what it is given, the result is that rejection,
/// and nothing is asked of the handler, which is not called.
pub proof fn lemma_rejection_is_final<T, Args, State, Func>(
    handler: Func,
    input: T,
    state: State,
    position: nat,
    rejection: Rejection,
    r: Result<T, Rejection>,
) where Func: Callable<Args> + Clone, Func::Output: Into<T>, Args: Arguments<T, State>
    requires
        Args::pure(),
        position < Args::arity(),
        Args::rejected_at(input, state, position, rejection),
        handler.invoked(input, state, r),
    ensures
        r == Err::<T, Rejection>(rejection),
{
    let extraction = lemma_invoked_extraction(handler, input, state, r);
    lemma_first_rejection_decides(input, state, position, rejection, extraction);
}

/// A handler without parameters is called whatever the input value and the
/// context are: the invocation succeeds, with what the output of the handler
/// converts into, and no other input value or context would change that.
pub proof fn lemma_without_parameters<T, State, Func>(
    handler: Func,
    input: T,
    state: State,
    r: Result<T, Rejection>,
) where Func: Callable<()> + Clone, Func::Output: Into<T>
    ensures
        Handler::<T, (), State>::invoked(&handler, input, state, r) <==> r is Ok && exists|
            copy: Func,
            output: Func::Output,
        |
            {
                &&& strictly_cloned(handler, copy)
                &&& #[trigger] copy.yields((), output)
                &&& converts(output, r->Ok_0)
            },
        forall|other_input: T, other_state: State|
            Handler::<T, (), State>::invoked(&handler, input, state, r) == #[trigger] Handler::<
                T,
                (),
                State,
            >::invoked(&handler, other_input, other_state, r),
{
    if Handler::<T, (), State>::invoked(&handler, input, state, r) {
        lemma_invoked_extraction::<T, (), State, Func>(handler, input, state, r);
    }
}

/// The response is the conversion of the output of the handler: where that
/// conversion is described by `into_spec`, the response is what `into_spec`
/// makes of the output.
pub proof fn lemma_response_is_converted<T, Args, State, Func>(
    handler: Func,
    input: T,
    state: State,
    response: T,
) where Func: Callable<Args> + Clone, Func::Output: Into<T>, Args: Arguments<T, State>
    requires
        handler.invoked(input, state, Ok(response)),
        <Func::Output as IntoSpec<T>>::obeys_into_spec(),
    ensures
        exists|copy: Func, args: Args, output: Func::Output|
            {
                &&& strictly_cloned(handler, copy)
                &&& Args::extracted(input, state, Ok(args))
                &&& #[trigger] copy.yields(args, output)
                &&& response == <Func::Output as IntoSpec<T>>::into_spec(output)
            },
{
    let (copy, args, output) = choose|copy: Func, args: Args, output: Func::Output|
        {
            &&& strictly_cloned(handler, copy)
            &&& Args::extracted(input, state, Ok(args))
            &&& #[trigger] copy.yields(args, output)
            &&& converts(output, response)
        };
    assert(copy.yields(args, output));
}

/// A handler that gives back its one parameter, between a value type and a
/// parameter type that encode and decode each other, gives back the value it
/// was invoked on.
///
/// That is: where the extractor of `A` can only succeed on `input`, and what it
/// extracts can only convert back into `input`, a handler whose output is its
/// parameter responds with `input`.
pub proof fn lemma_round_trip<T, State, A, Func>(
    handler: Func,
    input: T,
    state: State,
    r: Result<T, Rejection>,
) where
    T: Clone,
    A: Extractor<T, State> + Into<T>,
    A::Error: Into<Rejection>,
    Func: Callable<(A,), Output = A> + Clone,

    requires
        forall|outcome: Result<A, A::Error>| #[trigger]
            extracts::<A, T, State>(input, state, outcome) ==> outcome is Ok,
        forall|a: A, back: T|
            extracts::<A, T, State>(input, state, Ok(a)) && #[trigger] converts(a, back) ==> back
                == input,
        forall|copy: Func, a: A, output: A|
            strictly_cloned(handler, copy) && #[trigger] copy.yields((a,), output) ==> output
                == a,
        Handler::<T, (A,), State>::invoked(&handler, input, state, r),
    ensures
        r == Ok::<T, Rejection>(input),
{
    let extraction = lemma_invoked_extraction::<T, (A,), State, Func>(handler, input, state, r);
    match extraction {
        Ok((a,)) => {
            assert(extracts::<A, T, State>(input, state, Ok(a)));
        },
        Err(rejection) => {
            let (prefix, error) = choose|prefix: (), error: A::Error|
                {
                    &&& #[trigger] <() as Arguments<T, State>>::extracted(input, state, Ok(prefix))
                    &&& #[trigger] extracts::<A, T, State>(input, state, Err(error))
                    &&& converts(error, rejection)
                };
            assert(extracts::<A, T, State>(input, state, Err(error)));
        },
    }
}

/// A result of an invocation comes from one outcome of the extraction: the
/// same rejection, or the parameters that the handler was called with.
proof fn lemma_invoked_extraction<T, Args, State, Func>(
    handler: Func,
    input: T,
    state: State,
    r: Result<T, Rejection>,
) -> (extraction: Result<Args, Rejection>) where
    Func: Callable<Args> + Clone,
    Func::Output: Into<T>,
    Args: Arguments<T, State>,

    requires
        handler.invoked(input, state, r),
    ensures
        Args::extracted(input, state, extraction),
        match extraction {
            Ok(args) => r is Ok && exists|copy: Func, output: Func::Output|
                {
                    &&& strictly_cloned(handler, copy)
                    &&& #[trigger] copy.yields(args, output)
                    &&& converts(output, r->Ok_0)
                },
            Err(rejection) => r == Err::<T, Rejection>(rejection),
        },
{
    match r {
        Ok(response) => {
            let (copy, args, output) = choose|copy: Func, args: Args, output: Func::Output|
                {
                    &&& strictly_cloned(handler, copy)
                    &&& Args::extracted(input, state, Ok(args))
                    &&& #[trigger] copy.yields(args, output)
                    &&& converts(output, response)
                };
            let extraction: Result<Args, Rejection> = Ok(args);
            assert(copy.yields(extraction->Ok_0, output));
            extraction
        },
        Err(rejection) => Err(rejection),
    }
}

} // verus!
