//! Extraction of parameters, one by one and as a list.
use crate::{converts, Extractor, Rejection};
use vstd::pervasive::strictly_cloned;
use vstd::prelude::*;

verus! {

/// `outcome` is what the extractor of `P` may give for a clone of `input` in
/// the context `state`.
pub open spec fn extracts<P: Extractor<T, State>, T: Clone, State>(
    input: T,
    state: State,
    outcome: Result<P, P::Error>,
) -> bool {
    exists|topic: T| #[trigger]
        strictly_cloned(input, topic) && call_ensures(P::extract, (topic, &state), outcome)
}

/// Extracting a `P` is a function of the input value and the context: cloning
/// the input, the extractor of `P` and the conversion of its error each give
/// one result only.
pub open spec fn pure_extraction<P, T, State>() -> bool where
    P: Extractor<T, State>,
    P::Error: Into<Rejection>,
    T: Clone,
 {
    &&& forall|input: T, a: T, b: T|
        strictly_cloned(input, a) && strictly_cloned(input, b) ==> a == b
    &&& forall|topic: T, state: State, a: Result<P, P::Error>, b: Result<P, P::Error>|
        call_ensures(P::extract, (topic, &state), a) && call_ensures(
            P::extract,
            (topic, &state),
            b,
        ) ==> a == b
    &&& forall|error: P::Error, a: Rejection, b: Rejection|
        converts(error, a) && converts(error, b) ==> a == b
}

/// Extracts one parameter from a clone of `input`.
pub fn extract_one<P: Extractor<T, State>, T: Clone, State>(input: &T, state: &State) -> (outcome:
    Result<P, P::Error>)
    ensures
        extracts::<P, T, State>(*input, *state, outcome),
{
    let topic = input.clone();
    let outcome = P::extract(topic, state);
    assert(strictly_cloned(*input, topic));
    outcome
}

/// Joins the outcome of one extraction to the parameters before it: the value
/// takes its place behind them, an error becomes the rejection.
pub fn attach<Prefix, P, E: Into<Rejection>>(prefix: Prefix, outcome: Result<P, E>) -> (r: Result<
    (Prefix, P),
    Rejection,
>)
    ensures
        match outcome {
            Ok(last) => r == Ok::<(Prefix, P), Rejection>((prefix, last)),
            Err(error) => r is Err && converts(error, r->Err_0),
        },
{
    match outcome {
        Ok(last) => Ok((prefix, last)),
        Err(error) => Err(error.into()),
    }
}

/// A list of parameters that can be extracted as a whole: the tuples of up to
/// twelve extractable types.
pub trait Arguments<T, State>: Sized {
    /// How many parameters there are.
    spec fn arity() -> nat;

    /// `r` is what extracting the parameters in their declared order, each from
    /// a clone of `input`, may end with: all of them, or the rejection of the
    /// first that failed.
    spec fn extracted(input: T, state: State, r: Result<Self, Rejection>) -> bool;

    /// Each member of `args` is what the extractor of its parameter may give.
    spec fn each_extracted(input: T, state: State, args: Self) -> bool;

    /// The parameters before `position` (counted from 0) can be extracted, the
    /// one at `position` cannot, and `rejection` is what its error converts
    /// into. Nothing is said of the parameters after `position`.
    spec fn rejected_at(input: T, state: State, position: nat, rejection: Rejection) -> bool;

    /// Extracting each of the parameters is a function of the input value and
    /// the context.
    spec fn pure() -> bool;

    /// Extracts the parameters from left to right and stops at the first that
    /// fails.
    fn extract_all(input: &T, state: &State) -> (r: Result<Self, Rejection>)
        ensures
            Self::extracted(*input, *state, r),
    ;

    /// Success has no order: the parameters are extracted to `args` exactly
    /// when each of them, taken alone, is extracted to its member of `args`.
    proof fn lemma_success(input: T, state: State, args: Self)
        ensures
            Self::extracted(input, state, Ok(args)) <==> Self::each_extracted(input, state, args),
    ;

    /// Extraction stops at the first failure: it ends with `rejection` exactly
    /// when some parameter is rejected with it after all those before it were
    /// extracted. The parameters after that one have no part in it.
    proof fn lemma_rejection(input: T, state: State, rejection: Rejection)
        ensures
            Self::extracted(input, state, Err(rejection)) <==> exists|position: nat|
                position < Self::arity() && #[trigger] Self::rejected_at(
                    input,
                    state,
                    position,
                    rejection,
                ),
    ;

    /// Where each extraction is a function of the input value and the context,
    /// so is the extraction of them all.
    proof fn lemma_deterministic(
        input: T,
        state: State,
        r1: Result<Self, Rejection>,
        r2: Result<Self, Rejection>,
    )
        requires
            Self::pure(),
            Self::extracted(input, state, r1),
            Self::extracted(input, state, r2),
        ensures
            r1 == r2,
    ;
}

/// What [`Arguments::extracted`] is for the parameters `Prefix` followed by one
/// more, `P`.
///
/// They succeed when the parameters before and the last one both do. They fail
/// as the parameters before fail, and otherwise as the last one does.
pub open spec fn extended<Prefix, P, T, State>(
    input: T,
    state: State,
    r: Result<(Prefix, P), Rejection>,
) -> bool where
    Prefix: Arguments<T, State>,
    P: Extractor<T, State>,
    P::Error: Into<Rejection>,
    T: Clone,
 {
    match r {
        Ok((prefix, last)) => {
            &&& Prefix::extracted(input, state, Ok(prefix))
            &&& extracts::<P, T, State>(input, state, Ok(last))
        },
        Err(rejection) => {
            ||| Prefix::extracted(input, state, Err(rejection))
            ||| rejected_last::<Prefix, P, T, State>(input, state, rejection)
        },
    }
}

/// The parameters `Prefix` can be extracted, the parameter `P` after them
/// cannot, and `rejection` is what its error converts into.
pub open spec fn rejected_last<Prefix, P, T, State>(
    input: T,
    state: State,
    rejection: Rejection,
) -> bool where
    Prefix: Arguments<T, State>,
    P: Extractor<T, State>,
    P::Error: Into<Rejection>,
    T: Clone,
 {
    exists|prefix: Prefix, error: P::Error|
        {
            &&& #[trigger] Prefix::extracted(input, state, Ok(prefix))
            &&& #[trigger] extracts::<P, T, State>(input, state, Err(error))
            &&& converts(error, rejection)
        }
}

/// What [`Arguments::rejected_at`] is for the parameters `Prefix` followed by
/// one more, `P`: a rejection among `Prefix` is one of the longer list
/// unchanged, and `P` is rejected at the position behind them.
pub open spec fn rejected_in<Prefix, P, T, State>(
    input: T,
    state: State,
    position: nat,
    rejection: Rejection,
) -> bool where
    Prefix: Arguments<T, State>,
    P: Extractor<T, State>,
    P::Error: Into<Rejection>,
    T: Clone,
 {
    if position < Prefix::arity() {
        Prefix::rejected_at(input, state, position, rejection)
    } else {
        position == Prefix::arity() && rejected_last::<Prefix, P, T, State>(
            input,
            state,
            rejection,
        )
    }
}

/// Extracts the parameters `Prefix`, and after them `P`, unless one of them
/// has failed.
pub fn extend<Prefix, P, T, State>(input: &T, state: &State) -> (r: Result<
    (Prefix, P),
    Rejection,
>) where Prefix: Arguments<T, State>, P: Extractor<T, State>, P::Error: Into<Rejection>, T: Clone
    ensures
        extended::<Prefix, P, T, State>(*input, *state, r),
{
    match Prefix::extract_all(input, state) {
        Err(rejection) => Err(rejection),
        Ok(prefix) => attach(prefix, extract_one::<P, T, State>(input, state)),
    }
}

/// [`Arguments::lemma_rejection`] for the parameters `Prefix` followed by `P`.
pub proof fn lemma_extended_rejection<Prefix, P, T, State>(
    input: T,
    state: State,
    rejection: Rejection,
) where Prefix: Arguments<T, State>, P: Extractor<T, State>, P::Error: Into<Rejection>, T: Clone
    ensures
        extended::<Prefix, P, T, State>(input, state, Err(rejection)) <==> exists|position: nat|
            position < Prefix::arity() + 1 && #[trigger] rejected_in::<Prefix, P, T, State>(
                input,
                state,
                position,
                rejection,
            ),
{
    Prefix::lemma_rejection(input, state, rejection);
    if Prefix::extracted(input, state, Err(rejection)) {
        let position = choose|position: nat|
            position < Prefix::arity() && #[trigger] Prefix::rejected_at(
                input,
                state,
                position,
                rejection,
            );
        assert(rejected_in::<Prefix, P, T, State>(input, state, position, rejection));
    }
    if rejected_last::<Prefix, P, T, State>(input, state, rejection) {
        assert(rejected_in::<Prefix, P, T, State>(input, state, Prefix::arity(), rejection));
    }
}

/// [`Arguments::lemma_deterministic`] for the parameters `Prefix` followed by
/// `P`.
pub proof fn lemma_extended_deterministic<Prefix, P, T, State>(input: T, state: State) where
    Prefix: Arguments<T, State>,
    P: Extractor<T, State>,
    P::Error: Into<Rejection>,
    T: Clone,

    requires
        Prefix::pure(),
        pure_extraction::<P, T, State>(),
    ensures
        forall|r1: Result<(Prefix, P), Rejection>, r2: Result<(Prefix, P), Rejection>|
            {
                &&& #[trigger] extended::<Prefix, P, T, State>(input, state, r1)
                &&& #[trigger] extended::<Prefix, P, T, State>(input, state, r2)
            } ==> r1 == r2,
{
    assert forall|r1: Result<(Prefix, P), Rejection>, r2: Result<(Prefix, P), Rejection>|
        {
            &&& #[trigger] extended::<Prefix, P, T, State>(input, state, r1)
            &&& #[trigger] extended::<Prefix, P, T, State>(input, state, r2)
        } implies r1 == r2 by {
        let head1 = lemma_extended_head::<Prefix, P, T, State>(input, state, r1);
        let head2 = lemma_extended_head::<Prefix, P, T, State>(input, state, r2);
        Prefix::lemma_deterministic(input, state, head1, head2);
    }
}

/// An outcome of the parameters `Prefix` followed by `P` comes from one outcome
/// of `Prefix`: the same rejection, or the parameters that the last one was
/// joined to.
proof fn lemma_extended_head<Prefix, P, T, State>(
    input: T,
    state: State,
    r: Result<(Prefix, P), Rejection>,
) -> (head: Result<Prefix, Rejection>) where
    Prefix: Arguments<T, State>,
    P: Extractor<T, State>,
    P::Error: Into<Rejection>,
    T: Clone,

    requires
        extended::<Prefix, P, T, State>(input, state, r),
    ensures
        Prefix::extracted(input, state, head),
        match head {
            Err(rejection) => r == Err::<(Prefix, P), Rejection>(rejection),
            Ok(prefix) => exists|outcome: Result<P, P::Error>|
                #![trigger extracts::<P, T, State>(input, state, outcome)]
                {
                    &&& extracts::<P, T, State>(input, state, outcome)
                    &&& match outcome {
                        Ok(last) => r == Ok::<(Prefix, P), Rejection>((prefix, last)),
                        Err(error) => r is Err && converts(error, r->Err_0),
                    }
                },
        },
{
    match r {
        Ok((prefix, last)) => {
            assert(extracts::<P, T, State>(input, state, Ok(last)));
            Ok(prefix)
        },
        Err(rejection) => {
            if Prefix::extracted(input, state, Err(rejection)) {
                Err(rejection)
            } else {
                let (prefix, error) = choose|prefix: Prefix, error: P::Error|
                    {
                        &&& #[trigger] Prefix::extracted(input, state, Ok(prefix))
                        &&& #[trigger] extracts::<P, T, State>(input, state, Err(error))
                        &&& converts(error, rejection)
                    };
                assert(extracts::<P, T, State>(input, state, Err(error)));
                Ok(prefix)
            }
        },
    }
}

} // verus!
