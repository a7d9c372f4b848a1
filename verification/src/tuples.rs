//! The lists of parameters: the tuples of up to twelve extractable types.
//!
//! A list is the list before it and one more parameter, so each length takes
//! what it says of itself from [`extended`], [`rejected_in`] and [`extend`].
use crate::arguments::{
    extend, extended, extracts, lemma_extended_deterministic, lemma_extended_rejection,
    pure_extraction, rejected_in, Arguments,
};
use crate::{Extractor, Rejection};
use vstd::prelude::*;

verus! {

impl<T, State> Arguments<T, State> for () {
    open spec fn arity() -> nat {
        0
    }

    /// With no parameter there is nothing to extract, and nothing can fail.
    open spec fn extracted(input: T, state: State, r: Result<(), Rejection>) -> bool {
        r == Ok::<(), Rejection>(())
    }

    open spec fn each_extracted(input: T, state: State, args: ()) -> bool {
        true
    }

    open spec fn rejected_at(input: T, state: State, position: nat, rejection: Rejection) -> bool {
        false
    }

    open spec fn pure() -> bool {
        true
    }

    fn extract_all(_input: &T, _state: &State) -> (r: Result<(), Rejection>) {
        Ok(())
    }

    proof fn lemma_success(input: T, state: State, args: ()) {
    }

    proof fn lemma_rejection(input: T, state: State, rejection: Rejection) {
    }

    proof fn lemma_deterministic(
        input: T,
        state: State,
        r1: Result<(), Rejection>,
        r2: Result<(), Rejection>,
    ) {
    }
}

impl<T, State, A> Arguments<T, State> for (A,) where
    T: Clone,
    A: Extractor<T, State>,
    A::Error: Into<Rejection>,
 {
    open spec fn arity() -> nat {
        1
    }

    open spec fn extracted(input: T, state: State, r: Result<(A,), Rejection>) -> bool {
        extended::<(), A, T, State>(
            input,
            state,
            match r {
                Ok((a,)) => Ok(((), a)),
                Err(rejection) => Err(rejection),
            },
        )
    }

    open spec fn each_extracted(input: T, state: State, args: (A,)) -> bool {
        extracts::<A, T, State>(input, state, Ok(args.0))
    }

    open spec fn rejected_at(input: T, state: State, position: nat, rejection: Rejection) -> bool {
        rejected_in::<(), A, T, State>(input, state, position, rejection)
    }

    open spec fn pure() -> bool {
        pure_extraction::<A, T, State>()
    }

    fn extract_all(input: &T, state: &State) -> (r: Result<(A,), Rejection>) {
        match extend::<(), A, T, State>(input, state) {
            Ok(((), a)) => Ok((a,)),
            Err(rejection) => Err(rejection),
        }
    }

    proof fn lemma_success(input: T, state: State, args: (A,)) {
    }

    proof fn lemma_rejection(input: T, state: State, rejection: Rejection) {
        lemma_extended_rejection::<(), A, T, State>(input, state, rejection);
        assert forall|position: nat| #[trigger]
            rejected_in::<(), A, T, State>(
                input,
                state,
                position,
                rejection,
            ) implies Self::rejected_at(input, state, position, rejection) by {}
    }

    proof fn lemma_deterministic(
        input: T,
        state: State,
        r1: Result<(A,), Rejection>,
        r2: Result<(A,), Rejection>,
    ) {
        lemma_extended_deterministic::<(), A, T, State>(input, state);
    }
}

impl<T, State, A, B> Arguments<T, State> for (A, B) where
    T: Clone,
    A: Extractor<T, State>,
    A::Error: Into<Rejection>,
    B: Extractor<T, State>,
    B::Error: Into<Rejection>,
 {
    open spec fn arity() -> nat {
        2
    }

    open spec fn extracted(input: T, state: State, r: Result<(A, B), Rejection>) -> bool {
        extended::<(A,), B, T, State>(
            input,
            state,
            match r {
                Ok((a, b)) => Ok(((a,), b)),
                Err(rejection) => Err(rejection),
            },
        )
    }

    open spec fn each_extracted(input: T, state: State, args: (A, B)) -> bool {
        &&& extracts::<A, T, State>(input, state, Ok(args.0))
        &&& extracts::<B, T, State>(input, state, Ok(args.1))
    }

    open spec fn rejected_at(input: T, state: State, position: nat, rejection: Rejection) -> bool {
        rejected_in::<(A,), B, T, State>(input, state, position, rejection)
    }

    open spec fn pure() -> bool {
        &&& <(A,) as Arguments<T, State>>::pure()
        &&& pure_extraction::<B, T, State>()
    }

    fn extract_all(input: &T, state: &State) -> (r: Result<(A, B), Rejection>) {
        match extend::<(A,), B, T, State>(input, state) {
            Ok(((a,), b)) => Ok((a, b)),
            Err(rejection) => Err(rejection),
        }
    }

    proof fn lemma_success(input: T, state: State, args: (A, B)) {
        <(A,) as Arguments<T, State>>::lemma_success(input, state, (args.0,));
    }

    proof fn lemma_rejection(input: T, state: State, rejection: Rejection) {
        lemma_extended_rejection::<(A,), B, T, State>(input, state, rejection);
        assert forall|position: nat| #[trigger]
            rejected_in::<(A,), B, T, State>(
                input,
                state,
                position,
                rejection,
            ) implies Self::rejected_at(input, state, position, rejection) by {}
    }

    proof fn lemma_deterministic(
        input: T,
        state: State,
        r1: Result<(A, B), Rejection>,
        r2: Result<(A, B), Rejection>,
    ) {
        lemma_extended_deterministic::<(A,), B, T, State>(input, state);
    }
}

impl<T, State, A, B, C> Arguments<T, State> for (A, B, C) where
    T: Clone,
    A: Extractor<T, State>,
    A::Error: Into<Rejection>,
    B: Extractor<T, State>,
    B::Error: Into<Rejection>,
    C: Extractor<T, State>,
    C::Error: Into<Rejection>,
 {
    open spec fn arity() -> nat {
        3
    }

    open spec fn extracted(input: T, state: State, r: Result<(A, B, C), Rejection>) -> bool {
        extended::<(A, B), C, T, State>(
            input,
            state,
            match r {
                Ok((a, b, c)) => Ok(((a, b), c)),
                Err(rejection) => Err(rejection),
            },
        )
    }

    open spec fn each_extracted(input: T, state: State, args: (A, B, C)) -> bool {
        &&& extracts::<A, T, State>(input, state, Ok(args.0))
        &&& extracts::<B, T, State>(input, state, Ok(args.1))
        &&& extracts::<C, T, State>(input, state, Ok(args.2))
    }

    open spec fn rejected_at(input: T, state: State, position: nat, rejection: Rejection) -> bool {
        rejected_in::<(A, B), C, T, State>(input, state, position, rejection)
    }

    open spec fn pure() -> bool {
        &&& <(A, B) as Arguments<T, State>>::pure()
        &&& pure_extraction::<C, T, State>()
    }

    fn extract_all(input: &T, state: &State) -> (r: Result<(A, B, C), Rejection>) {
        match extend::<(A, B), C, T, State>(input, state) {
            Ok(((a, b), c)) => Ok((a, b, c)),
            Err(rejection) => Err(rejection),
        }
    }

    proof fn lemma_success(input: T, state: State, args: (A, B, C)) {
        <(A, B) as Arguments<T, State>>::lemma_success(input, state, (args.0, args.1));
    }

    proof fn lemma_rejection(input: T, state: State, rejection: Rejection) {
        lemma_extended_rejection::<(A, B), C, T, State>(input, state, rejection);
        assert forall|position: nat| #[trigger]
            rejected_in::<(A, B), C, T, State>(
                input,
                state,
                position,
                rejection,
            ) implies Self::rejected_at(input, state, position, rejection) by {}
    }

    proof fn lemma_deterministic(
        input: T,
        state: State,
        r1: Result<(A, B, C), Rejection>,
        r2: Result<(A, B, C), Rejection>,
    ) {
        lemma_extended_deterministic::<(A, B), C, T, State>(input, state);
    }
}

impl<T, State, A, B, C, D> Arguments<T, State> for (A, B, C, D) where
    T: Clone,
    A: Extractor<T, State>,
    A::Error: Into<Rejection>,
    B: Extractor<T, State>,
    B::Error: Into<Rejection>,
    C: Extractor<T, State>,
    C::Error: Into<Rejection>,
    D: Extractor<T, State>,
    D::Error: Into<Rejection>,
 {
    open spec fn arity() -> nat {
        4
    }

    open spec fn extracted(input: T, state: State, r: Result<(A, B, C, D), Rejection>) -> bool {
        extended::<(A, B, C), D, T, State>(
            input,
            state,
            match r {
                Ok((a, b, c, d)) => Ok(((a, b, c), d)),
                Err(rejection) => Err(rejection),
            },
        )
    }

    open spec fn each_extracted(input: T, state: State, args: (A, B, C, D)) -> bool {
        &&& extracts::<A, T, State>(input, state, Ok(args.0))
        &&& extracts::<B, T, State>(input, state, Ok(args.1))
        &&& extracts::<C, T, State>(input, state, Ok(args.2))
        &&& extracts::<D, T, State>(input, state, Ok(args.3))
    }

    open spec fn rejected_at(input: T, state: State, position: nat, rejection: Rejection) -> bool {
        rejected_in::<(A, B, C), D, T, State>(input, state, position, rejection)
    }

    open spec fn pure() -> bool {
        &&& <(A, B, C) as Arguments<T, State>>::pure()
        &&& pure_extraction::<D, T, State>()
    }

    fn extract_all(input: &T, state: &State) -> (r: Result<(A, B, C, D), Rejection>) {
        match extend::<(A, B, C), D, T, State>(input, state) {
            Ok(((a, b, c), d)) => Ok((a, b, c, d)),
            Err(rejection) => Err(rejection),
        }
    }

    proof fn lemma_success(input: T, state: State, args: (A, B, C, D)) {
        <(A, B, C) as Arguments<T, State>>::lemma_success(input, state, (args.0, args.1, args.2));
    }

    proof fn lemma_rejection(input: T, state: State, rejection: Rejection) {
        lemma_extended_rejection::<(A, B, C), D, T, State>(input, state, rejection);
        assert forall|position: nat| #[trigger]
            rejected_in::<(A, B, C), D, T, State>(
                input,
                state,
                position,
                rejection,
            ) implies Self::rejected_at(input, state, position, rejection) by {}
    }

    proof fn lemma_deterministic(
        input: T,
        state: State,
        r1: Result<(A, B, C, D), Rejection>,
        r2: Result<(A, B, C, D), Rejection>,
    ) {
        lemma_extended_deterministic::<(A, B, C), D, T, State>(input, state);
    }
}

impl<T, State, A, B, C, D, E> Arguments<T, State> for (A, B, C, D, E) where
    T: Clone,
    A: Extractor<T, State>,
    A::Error: Into<Rejection>,
    B: Extractor<T, State>,
    B::Error: Into<Rejection>,
    C: Extractor<T, State>,
    C::Error: Into<Rejection>,
    D: Extractor<T, State>,
    D::Error: Into<Rejection>,
    E: Extractor<T, State>,
    E::Error: Into<Rejection>,
 {
    open spec fn arity() -> nat {
        5
    }

    open spec fn extracted(input: T, state: State, r: Result<(A, B, C, D, E), Rejection>) -> bool {
        extended::<(A, B, C, D), E, T, State>(
            input,
            state,
            match r {
                Ok((a, b, c, d, e)) => Ok(((a, b, c, d), e)),
                Err(rejection) => Err(rejection),
            },
        )
    }

    open spec fn each_extracted(input: T, state: State, args: (A, B, C, D, E)) -> bool {
        &&& extracts::<A, T, State>(input, state, Ok(args.0))
        &&& extracts::<B, T, State>(input, state, Ok(args.1))
        &&& extracts::<C, T, State>(input, state, Ok(args.2))
        &&& extracts::<D, T, State>(input, state, Ok(args.3))
        &&& extracts::<E, T, State>(input, state, Ok(args.4))
    }

    open spec fn rejected_at(input: T, state: State, position: nat, rejection: Rejection) -> bool {
        rejected_in::<(A, B, C, D), E, T, State>(input, state, position, rejection)
    }

    open spec fn pure() -> bool {
        &&& <(A, B, C, D) as Arguments<T, State>>::pure()
        &&& pure_extraction::<E, T, State>()
    }

    fn extract_all(input: &T, state: &State) -> (r: Result<(A, B, C, D, E), Rejection>) {
        match extend::<(A, B, C, D), E, T, State>(input, state) {
            Ok(((a, b, c, d), e)) => Ok((a, b, c, d, e)),
            Err(rejection) => Err(rejection),
        }
    }

    proof fn lemma_success(input: T, state: State, args: (A, B, C, D, E)) {
        <(A, B, C, D) as Arguments<T, State>>::lemma_success(
            input,
            state,
            (args.0, args.1, args.2, args.3),
        );
    }

    proof fn lemma_rejection(input: T, state: State, rejection: Rejection) {
        lemma_extended_rejection::<(A, B, C, D), E, T, State>(input, state, rejection);
        assert forall|position: nat| #[trigger]
            rejected_in::<(A, B, C, D), E, T, State>(
                input,
                state,
                position,
                rejection,
            ) implies Self::rejected_at(input, state, position, rejection) by {}
    }

    proof fn lemma_deterministic(
        input: T,
        state: State,
        r1: Result<(A, B, C, D, E), Rejection>,
        r2: Result<(A, B, C, D, E), Rejection>,
    ) {
        lemma_extended_deterministic::<(A, B, C, D), E, T, State>(input, state);
    }
}

impl<T, State, A, B, C, D, E, F> Arguments<T, State> for (A, B, C, D, E, F) where
    T: Clone,
    A: Extractor<T, State>,
    A::Error: Into<Rejection>,
    B: Extractor<T, State>,
    B::Error: Into<Rejection>,
    C: Extractor<T, State>,
    C::Error: Into<Rejection>,
    D: Extractor<T, State>,
    D::Error: Into<Rejection>,
    E: Extractor<T, State>,
    E::Error: Into<Rejection>,
    F: Extractor<T, State>,
    F::Error: Into<Rejection>,
 {
    open spec fn arity() -> nat {
        6
    }

    open spec fn extracted(input: T, state: State, r: Result<(A, B, C, D, E, F), Rejection>) -> bool {
        extended::<(A, B, C, D, E), F, T, State>(
            input,
            state,
            match r {
                Ok((a, b, c, d, e, f)) => Ok(((a, b, c, d, e), f)),
                Err(rejection) => Err(rejection),
            },
        )
    }

    open spec fn each_extracted(input: T, state: State, args: (A, B, C, D, E, F)) -> bool {
        &&& extracts::<A, T, State>(input, state, Ok(args.0))
        &&& extracts::<B, T, State>(input, state, Ok(args.1))
        &&& extracts::<C, T, State>(input, state, Ok(args.2))
        &&& extracts::<D, T, State>(input, state, Ok(args.3))
        &&& extracts::<E, T, State>(input, state, Ok(args.4))
        &&& extracts::<F, T, State>(input, state, Ok(args.5))
    }

    open spec fn rejected_at(input: T, state: State, position: nat, rejection: Rejection) -> bool {
        rejected_in::<(A, B, C, D, E), F, T, State>(input, state, position, rejection)
    }

    open spec fn pure() -> bool {
        &&& <(A, B, C, D, E) as Arguments<T, State>>::pure()
        &&& pure_extraction::<F, T, State>()
    }

    fn extract_all(input: &T, state: &State) -> (r: Result<(A, B, C, D, E, F), Rejection>) {
        match extend::<(A, B, C, D, E), F, T, State>(input, state) {
            Ok(((a, b, c, d, e), f)) => Ok((a, b, c, d, e, f)),
            Err(rejection) => Err(rejection),
        }
    }

    proof fn lemma_success(input: T, state: State, args: (A, B, C, D, E, F)) {
        <(A, B, C, D, E) as Arguments<T, State>>::lemma_success(
            input,
            state,
            (args.0, args.1, args.2, args.3, args.4),
        );
    }

    proof fn lemma_rejection(input: T, state: State, rejection: Rejection) {
        lemma_extended_rejection::<(A, B, C, D, E), F, T, State>(input, state, rejection);
        assert forall|position: nat| #[trigger]
            rejected_in::<(A, B, C, D, E), F, T, State>(
                input,
                state,
                position,
                rejection,
            ) implies Self::rejected_at(input, state, position, rejection) by {}
    }

    proof fn lemma_deterministic(
        input: T,
        state: State,
        r1: Result<(A, B, C, D, E, F), Rejection>,
        r2: Result<(A, B, C, D, E, F), Rejection>,
    ) {
        lemma_extended_deterministic::<(A, B, C, D, E), F, T, State>(input, state);
    }
}

impl<T, State, A, B, C, D, E, F, G> Arguments<T, State> for (A, B, C, D, E, F, G) where
    T: Clone,
    A: Extractor<T, State>,
    A::Error: Into<Rejection>,
    B: Extractor<T, State>,
    B::Error: Into<Rejection>,
    C: Extractor<T, State>,
    C::Error: Into<Rejection>,
    D: Extractor<T, State>,
    D::Error: Into<Rejection>,
    E: Extractor<T, State>,
    E::Error: Into<Rejection>,
    F: Extractor<T, State>,
    F::Error: Into<Rejection>,
    G: Extractor<T, State>,
    G::Error: Into<Rejection>,
 {
    open spec fn arity() -> nat {
        7
    }

    open spec fn extracted(input: T, state: State, r: Result<(A, B, C, D, E, F, G), Rejection>) -> bool {
        extended::<(A, B, C, D, E, F), G, T, State>(
            input,
            state,
            match r {
                Ok((a, b, c, d, e, f, g)) => Ok(((a, b, c, d, e, f), g)),
                Err(rejection) => Err(rejection),
            },
        )
    }

    open spec fn each_extracted(input: T, state: State, args: (A, B, C, D, E, F, G)) -> bool {
        &&& extracts::<A, T, State>(input, state, Ok(args.0))
        &&& extracts::<B, T, State>(input, state, Ok(args.1))
        &&& extracts::<C, T, State>(input, state, Ok(args.2))
        &&& extracts::<D, T, State>(input, state, Ok(args.3))
        &&& extracts::<E, T, State>(input, state, Ok(args.4))
        &&& extracts::<F, T, State>(input, state, Ok(args.5))
        &&& extracts::<G, T, State>(input, state, Ok(args.6))
    }

    open spec fn rejected_at(input: T, state: State, position: nat, rejection: Rejection) -> bool {
        rejected_in::<(A, B, C, D, E, F), G, T, State>(input, state, position, rejection)
    }

    open spec fn pure() -> bool {
        &&& <(A, B, C, D, E, F) as Arguments<T, State>>::pure()
        &&& pure_extraction::<G, T, State>()
    }

    fn extract_all(input: &T, state: &State) -> (r: Result<(A, B, C, D, E, F, G), Rejection>) {
        match extend::<(A, B, C, D, E, F), G, T, State>(input, state) {
            Ok(((a, b, c, d, e, f), g)) => Ok((a, b, c, d, e, f, g)),
            Err(rejection) => Err(rejection),
        }
    }

    proof fn lemma_success(input: T, state: State, args: (A, B, C, D, E, F, G)) {
        <(A, B, C, D, E, F) as Arguments<T, State>>::lemma_success(
            input,
            state,
            (args.0, args.1, args.2, args.3, args.4, args.5),
        );
    }

    proof fn lemma_rejection(input: T, state: State, rejection: Rejection) {
        lemma_extended_rejection::<(A, B, C, D, E, F), G, T, State>(input, state, rejection);
        assert forall|position: nat| #[trigger]
            rejected_in::<(A, B, C, D, E, F), G, T, State>(
                input,
                state,
                position,
                rejection,
            ) implies Self::rejected_at(input, state, position, rejection) by {}
    }

    proof fn lemma_deterministic(
        input: T,
        state: State,
        r1: Result<(A, B, C, D, E, F, G), Rejection>,
        r2: Result<(A, B, C, D, E, F, G), Rejection>,
    ) {
        lemma_extended_deterministic::<(A, B, C, D, E, F), G, T, State>(input, state);
    }
}

impl<T, State, A, B, C, D, E, F, G, H> Arguments<T, State> for (A, B, C, D, E, F, G, H) where
    T: Clone,
    A: Extractor<T, State>,
    A::Error: Into<Rejection>,
    B: Extractor<T, State>,
    B::Error: Into<Rejection>,
    C: Extractor<T, State>,
    C::Error: Into<Rejection>,
    D: Extractor<T, State>,
    D::Error: Into<Rejection>,
    E: Extractor<T, State>,
    E::Error: Into<Rejection>,
    F: Extractor<T, State>,
    F::Error: Into<Rejection>,
    G: Extractor<T, State>,
    G::Error: Into<Rejection>,
    H: Extractor<T, State>,
    H::Error: Into<Rejection>,
 {
    open spec fn arity() -> nat {
        8
    }

    open spec fn extracted(input: T, state: State, r: Result<(A, B, C, D, E, F, G, H), Rejection>) -> bool {
        extended::<(A, B, C, D, E, F, G), H, T, State>(
            input,
            state,
            match r {
                Ok((a, b, c, d, e, f, g, h)) => Ok(((a, b, c, d, e, f, g), h)),
                Err(rejection) => Err(rejection),
            },
        )
    }

    open spec fn each_extracted(input: T, state: State, args: (A, B, C, D, E, F, G, H)) -> bool {
        &&& extracts::<A, T, State>(input, state, Ok(args.0))
        &&& extracts::<B, T, State>(input, state, Ok(args.1))
        &&& extracts::<C, T, State>(input, state, Ok(args.2))
        &&& extracts::<D, T, State>(input, state, Ok(args.3))
        &&& extracts::<E, T, State>(input, state, Ok(args.4))
        &&& extracts::<F, T, State>(input, state, Ok(args.5))
        &&& extracts::<G, T, State>(input, state, Ok(args.6))
        &&& extracts::<H, T, State>(input, state, Ok(args.7))
    }

    open spec fn rejected_at(input: T, state: State, position: nat, rejection: Rejection) -> bool {
        rejected_in::<(A, B, C, D, E, F, G), H, T, State>(input, state, position, rejection)
    }

    open spec fn pure() -> bool {
        &&& <(A, B, C, D, E, F, G) as Arguments<T, State>>::pure()
        &&& pure_extraction::<H, T, State>()
    }

    fn extract_all(input: &T, state: &State) -> (r: Result<(A, B, C, D, E, F, G, H), Rejection>) {
        match extend::<(A, B, C, D, E, F, G), H, T, State>(input, state) {
            Ok(((a, b, c, d, e, f, g), h)) => Ok((a, b, c, d, e, f, g, h)),
            Err(rejection) => Err(rejection),
        }
    }

    proof fn lemma_success(input: T, state: State, args: (A, B, C, D, E, F, G, H)) {
        <(A, B, C, D, E, F, G) as Arguments<T, State>>::lemma_success(
            input,
            state,
            (args.0, args.1, args.2, args.3, args.4, args.5, args.6),
        );
    }

    proof fn lemma_rejection(input: T, state: State, rejection: Rejection) {
        lemma_extended_rejection::<(A, B, C, D, E, F, G), H, T, State>(input, state, rejection);
        assert forall|position: nat| #[trigger]
            rejected_in::<(A, B, C, D, E, F, G), H, T, State>(
                input,
                state,
                position,
                rejection,
            ) implies Self::rejected_at(input, state, position, rejection) by {}
    }

    proof fn lemma_deterministic(
        input: T,
        state: State,
        r1: Result<(A, B, C, D, E, F, G, H), Rejection>,
        r2: Result<(A, B, C, D, E, F, G, H), Rejection>,
    ) {
        lemma_extended_deterministic::<(A, B, C, D, E, F, G), H, T, State>(input, state);
    }
}

impl<T, State, A, B, C, D, E, F, G, H, I> Arguments<T, State> for (A, B, C, D, E, F, G, H, I) where
    T: Clone,
    A: Extractor<T, State>,
    A::Error: Into<Rejection>,
    B: Extractor<T, State>,
    B::Error: Into<Rejection>,
    C: Extractor<T, State>,
    C::Error: Into<Rejection>,
    D: Extractor<T, State>,
    D::Error: Into<Rejection>,
    E: Extractor<T, State>,
    E::Error: Into<Rejection>,
    F: Extractor<T, State>,
    F::Error: Into<Rejection>,
    G: Extractor<T, State>,
    G::Error: Into<Rejection>,
    H: Extractor<T, State>,
    H::Error: Into<Rejection>,
    I: Extractor<T, State>,
    I::Error: Into<Rejection>,
 {
    open spec fn arity() -> nat {
        9
    }

    open spec fn extracted(input: T, state: State, r: Result<(A, B, C, D, E, F, G, H, I), Rejection>) -> bool {
        extended::<(A, B, C, D, E, F, G, H), I, T, State>(
            input,
            state,
            match r {
                Ok((a, b, c, d, e, f, g, h, i)) => Ok(((a, b, c, d, e, f, g, h), i)),
                Err(rejection) => Err(rejection),
            },
        )
    }

    open spec fn each_extracted(input: T, state: State, args: (A, B, C, D, E, F, G, H, I)) -> bool {
        &&& extracts::<A, T, State>(input, state, Ok(args.0))
        &&& extracts::<B, T, State>(input, state, Ok(args.1))
        &&& extracts::<C, T, State>(input, state, Ok(args.2))
        &&& extracts::<D, T, State>(input, state, Ok(args.3))
        &&& extracts::<E, T, State>(input, state, Ok(args.4))
        &&& extracts::<F, T, State>(input, state, Ok(args.5))
        &&& extracts::<G, T, State>(input, state, Ok(args.6))
        &&& extracts::<H, T, State>(input, state, Ok(args.7))
        &&& extracts::<I, T, State>(input, state, Ok(args.8))
    }

    open spec fn rejected_at(input: T, state: State, position: nat, rejection: Rejection) -> bool {
        rejected_in::<(A, B, C, D, E, F, G, H), I, T, State>(input, state, position, rejection)
    }

    open spec fn pure() -> bool {
        &&& <(A, B, C, D, E, F, G, H) as Arguments<T, State>>::pure()
        &&& pure_extraction::<I, T, State>()
    }

    fn extract_all(input: &T, state: &State) -> (r: Result<(A, B, C, D, E, F, G, H, I), Rejection>) {
        match extend::<(A, B, C, D, E, F, G, H), I, T, State>(input, state) {
            Ok(((a, b, c, d, e, f, g, h), i)) => Ok((a, b, c, d, e, f, g, h, i)),
            Err(rejection) => Err(rejection),
        }
    }

    proof fn lemma_success(input: T, state: State, args: (A, B, C, D, E, F, G, H, I)) {
        <(A, B, C, D, E, F, G, H) as Arguments<T, State>>::lemma_success(
            input,
            state,
            (args.0, args.1, args.2, args.3, args.4, args.5, args.6, args.7),
        );
    }

    proof fn lemma_rejection(input: T, state: State, rejection: Rejection) {
        lemma_extended_rejection::<(A, B, C, D, E, F, G, H), I, T, State>(input, state, rejection);
        assert forall|position: nat| #[trigger]
            rejected_in::<(A, B, C, D, E, F, G, H), I, T, State>(
                input,
                state,
                position,
                rejection,
            ) implies Self::rejected_at(input, state, position, rejection) by {}
    }

    proof fn lemma_deterministic(
        input: T,
        state: State,
        r1: Result<(A, B, C, D, E, F, G, H, I), Rejection>,
        r2: Result<(A, B, C, D, E, F, G, H, I), Rejection>,
    ) {
        lemma_extended_deterministic::<(A, B, C, D, E, F, G, H), I, T, State>(input, state);
    }
}

impl<T, State, A, B, C, D, E, F, G, H, I, J> Arguments<T, State> for (A, B, C, D, E, F, G, H, I, J) where
    T: Clone,
    A: Extractor<T, State>,
    A::Error: Into<Rejection>,
    B: Extractor<T, State>,
    B::Error: Into<Rejection>,
    C: Extractor<T, State>,
    C::Error: Into<Rejection>,
    D: Extractor<T, State>,
    D::Error: Into<Rejection>,
    E: Extractor<T, State>,
    E::Error: Into<Rejection>,
    F: Extractor<T, State>,
    F::Error: Into<Rejection>,
    G: Extractor<T, State>,
    G::Error: Into<Rejection>,
    H: Extractor<T, State>,
    H::Error: Into<Rejection>,
    I: Extractor<T, State>,
    I::Error: Into<Rejection>,
    J: Extractor<T, State>,
    J::Error: Into<Rejection>,
 {
    open spec fn arity() -> nat {
        10
    }

    open spec fn extracted(input: T, state: State, r: Result<(A, B, C, D, E, F, G, H, I, J), Rejection>) -> bool {
        extended::<(A, B, C, D, E, F, G, H, I), J, T, State>(
            input,
            state,
            match r {
                Ok((a, b, c, d, e, f, g, h, i, j)) => Ok(((a, b, c, d, e, f, g, h, i), j)),
                Err(rejection) => Err(rejection),
            },
        )
    }

    open spec fn each_extracted(input: T, state: State, args: (A, B, C, D, E, F, G, H, I, J)) -> bool {
        &&& extracts::<A, T, State>(input, state, Ok(args.0))
        &&& extracts::<B, T, State>(input, state, Ok(args.1))
        &&& extracts::<C, T, State>(input, state, Ok(args.2))
        &&& extracts::<D, T, State>(input, state, Ok(args.3))
        &&& extracts::<E, T, State>(input, state, Ok(args.4))
        &&& extracts::<F, T, State>(input, state, Ok(args.5))
        &&& extracts::<G, T, State>(input, state, Ok(args.6))
        &&& extracts::<H, T, State>(input, state, Ok(args.7))
        &&& extracts::<I, T, State>(input, state, Ok(args.8))
        &&& extracts::<J, T, State>(input, state, Ok(args.9))
    }

    open spec fn rejected_at(input: T, state: State, position: nat, rejection: Rejection) -> bool {
        rejected_in::<(A, B, C, D, E, F, G, H, I), J, T, State>(input, state, position, rejection)
    }

    open spec fn pure() -> bool {
        &&& <(A, B, C, D, E, F, G, H, I) as Arguments<T, State>>::pure()
        &&& pure_extraction::<J, T, State>()
    }

    fn extract_all(input: &T, state: &State) -> (r: Result<(A, B, C, D, E, F, G, H, I, J), Rejection>) {
        match extend::<(A, B, C, D, E, F, G, H, I), J, T, State>(input, state) {
            Ok(((a, b, c, d, e, f, g, h, i), j)) => Ok((a, b, c, d, e, f, g, h, i, j)),
            Err(rejection) => Err(rejection),
        }
    }

    proof fn lemma_success(input: T, state: State, args: (A, B, C, D, E, F, G, H, I, J)) {
        <(A, B, C, D, E, F, G, H, I) as Arguments<T, State>>::lemma_success(
            input,
            state,
            (args.0, args.1, args.2, args.3, args.4, args.5, args.6, args.7, args.8),
        );
    }

    proof fn lemma_rejection(input: T, state: State, rejection: Rejection) {
        lemma_extended_rejection::<(A, B, C, D, E, F, G, H, I), J, T, State>(input, state, rejection);
        assert forall|position: nat| #[trigger]
            rejected_in::<(A, B, C, D, E, F, G, H, I), J, T, State>(
                input,
                state,
                position,
                rejection,
            ) implies Self::rejected_at(input, state, position, rejection) by {}
    }

    proof fn lemma_deterministic(
        input: T,
        state: State,
        r1: Result<(A, B, C, D, E, F, G, H, I, J), Rejection>,
        r2: Result<(A, B, C, D, E, F, G, H, I, J), Rejection>,
    ) {
        lemma_extended_deterministic::<(A, B, C, D, E, F, G, H, I), J, T, State>(input, state);
    }
}

impl<T, State, A, B, C, D, E, F, G, H, I, J, K> Arguments<T, State> for (A, B, C, D, E, F, G, H, I, J, K) where
    T: Clone,
    A: Extractor<T, State>,
    A::Error: Into<Rejection>,
    B: Extractor<T, State>,
    B::Error: Into<Rejection>,
    C: Extractor<T, State>,
    C::Error: Into<Rejection>,
    D: Extractor<T, State>,
    D::Error: Into<Rejection>,
    E: Extractor<T, State>,
    E::Error: Into<Rejection>,
    F: Extractor<T, State>,
    F::Error: Into<Rejection>,
    G: Extractor<T, State>,
    G::Error: Into<Rejection>,
    H: Extractor<T, State>,
    H::Error: Into<Rejection>,
    I: Extractor<T, State>,
    I::Error: Into<Rejection>,
    J: Extractor<T, State>,
    J::Error: Into<Rejection>,
    K: Extractor<T, State>,
    K::Error: Into<Rejection>,
 {
    open spec fn arity() -> nat {
        11
    }

    open spec fn extracted(input: T, state: State, r: Result<(A, B, C, D, E, F, G, H, I, J, K), Rejection>) -> bool {
        extended::<(A, B, C, D, E, F, G, H, I, J), K, T, State>(
            input,
            state,
            match r {
                Ok((a, b, c, d, e, f, g, h, i, j, k)) => Ok(((a, b, c, d, e, f, g, h, i, j), k)),
                Err(rejection) => Err(rejection),
            },
        )
    }

    open spec fn each_extracted(input: T, state: State, args: (A, B, C, D, E, F, G, H, I, J, K)) -> bool {
        &&& extracts::<A, T, State>(input, state, Ok(args.0))
        &&& extracts::<B, T, State>(input, state, Ok(args.1))
        &&& extracts::<C, T, State>(input, state, Ok(args.2))
        &&& extracts::<D, T, State>(input, state, Ok(args.3))
        &&& extracts::<E, T, State>(input, state, Ok(args.4))
        &&& extracts::<F, T, State>(input, state, Ok(args.5))
        &&& extracts::<G, T, State>(input, state, Ok(args.6))
        &&& extracts::<H, T, State>(input, state, Ok(args.7))
        &&& extracts::<I, T, State>(input, state, Ok(args.8))
        &&& extracts::<J, T, State>(input, state, Ok(args.9))
        &&& extracts::<K, T, State>(input, state, Ok(args.10))
    }

    open spec fn rejected_at(input: T, state: State, position: nat, rejection: Rejection) -> bool {
        rejected_in::<(A, B, C, D, E, F, G, H, I, J), K, T, State>(input, state, position, rejection)
    }

    open spec fn pure() -> bool {
        &&& <(A, B, C, D, E, F, G, H, I, J) as Arguments<T, State>>::pure()
        &&& pure_extraction::<K, T, State>()
    }

    fn extract_all(input: &T, state: &State) -> (r: Result<(A, B, C, D, E, F, G, H, I, J, K), Rejection>) {
        match extend::<(A, B, C, D, E, F, G, H, I, J), K, T, State>(input, state) {
            Ok(((a, b, c, d, e, f, g, h, i, j), k)) => Ok((a, b, c, d, e, f, g, h, i, j, k)),
            Err(rejection) => Err(rejection),
        }
    }

    proof fn lemma_success(input: T, state: State, args: (A, B, C, D, E, F, G, H, I, J, K)) {
        <(A, B, C, D, E, F, G, H, I, J) as Arguments<T, State>>::lemma_success(
            input,
            state,
            (args.0, args.1, args.2, args.3, args.4, args.5, args.6, args.7, args.8, args.9),
        );
    }

    proof fn lemma_rejection(input: T, state: State, rejection: Rejection) {
        lemma_extended_rejection::<(A, B, C, D, E, F, G, H, I, J), K, T, State>(input, state, rejection);
        assert forall|position: nat| #[trigger]
            rejected_in::<(A, B, C, D, E, F, G, H, I, J), K, T, State>(
                input,
                state,
                position,
                rejection,
            ) implies Self::rejected_at(input, state, position, rejection) by {}
    }

    proof fn lemma_deterministic(
        input: T,
        state: State,
        r1: Result<(A, B, C, D, E, F, G, H, I, J, K), Rejection>,
        r2: Result<(A, B, C, D, E, F, G, H, I, J, K), Rejection>,
    ) {
        lemma_extended_deterministic::<(A, B, C, D, E, F, G, H, I, J), K, T, State>(input, state);
    }
}

impl<T, State, A, B, C, D, E, F, G, H, I, J, K, L> Arguments<T, State> for (A, B, C, D, E, F, G, H, I, J, K, L) where
    T: Clone,
    A: Extractor<T, State>,
    A::Error: Into<Rejection>,
    B: Extractor<T, State>,
    B::Error: Into<Rejection>,
    C: Extractor<T, State>,
    C::Error: Into<Rejection>,
    D: Extractor<T, State>,
    D::Error: Into<Rejection>,
    E: Extractor<T, State>,
    E::Error: Into<Rejection>,
    F: Extractor<T, State>,
    F::Error: Into<Rejection>,
    G: Extractor<T, State>,
    G::Error: Into<Rejection>,
    H: Extractor<T, State>,
    H::Error: Into<Rejection>,
    I: Extractor<T, State>,
    I::Error: Into<Rejection>,
    J: Extractor<T, State>,
    J::Error: Into<Rejection>,
    K: Extractor<T, State>,
    K::Error: Into<Rejection>,
    L: Extractor<T, State>,
    L::Error: Into<Rejection>,
 {
    open spec fn arity() -> nat {
        12
    }

    open spec fn extracted(input: T, state: State, r: Result<(A, B, C, D, E, F, G, H, I, J, K, L), Rejection>) -> bool {
        extended::<(A, B, C, D, E, F, G, H, I, J, K), L, T, State>(
            input,
            state,
            match r {
                Ok((a, b, c, d, e, f, g, h, i, j, k, l)) => Ok(((a, b, c, d, e, f, g, h, i, j, k), l)),
                Err(rejection) => Err(rejection),
            },
        )
    }

    open spec fn each_extracted(input: T, state: State, args: (A, B, C, D, E, F, G, H, I, J, K, L)) -> bool {
        &&& extracts::<A, T, State>(input, state, Ok(args.0))
        &&& extracts::<B, T, State>(input, state, Ok(args.1))
        &&& extracts::<C, T, State>(input, state, Ok(args.2))
        &&& extracts::<D, T, State>(input, state, Ok(args.3))
        &&& extracts::<E, T, State>(input, state, Ok(args.4))
        &&& extracts::<F, T, State>(input, state, Ok(args.5))
        &&& extracts::<G, T, State>(input, state, Ok(args.6))
        &&& extracts::<H, T, State>(input, state, Ok(args.7))
        &&& extracts::<I, T, State>(input, state, Ok(args.8))
        &&& extracts::<J, T, State>(input, state, Ok(args.9))
        &&& extracts::<K, T, State>(input, state, Ok(args.10))
        &&& extracts::<L, T, State>(input, state, Ok(args.11))
    }

    open spec fn rejected_at(input: T, state: State, position: nat, rejection: Rejection) -> bool {
        rejected_in::<(A, B, C, D, E, F, G, H, I, J, K), L, T, State>(input, state, position, rejection)
    }

    open spec fn pure() -> bool {
        &&& <(A, B, C, D, E, F, G, H, I, J, K) as Arguments<T, State>>::pure()
        &&& pure_extraction::<L, T, State>()
    }

    fn extract_all(input: &T, state: &State) -> (r: Result<(A, B, C, D, E, F, G, H, I, J, K, L), Rejection>) {
        match extend::<(A, B, C, D, E, F, G, H, I, J, K), L, T, State>(input, state) {
            Ok(((a, b, c, d, e, f, g, h, i, j, k), l)) => Ok((a, b, c, d, e, f, g, h, i, j, k, l)),
            Err(rejection) => Err(rejection),
        }
    }

    proof fn lemma_success(input: T, state: State, args: (A, B, C, D, E, F, G, H, I, J, K, L)) {
        <(A, B, C, D, E, F, G, H, I, J, K) as Arguments<T, State>>::lemma_success(
            input,
            state,
            (args.0, args.1, args.2, args.3, args.4, args.5, args.6, args.7, args.8, args.9, args.10),
        );
    }

    proof fn lemma_rejection(input: T, state: State, rejection: Rejection) {
        lemma_extended_rejection::<(A, B, C, D, E, F, G, H, I, J, K), L, T, State>(input, state, rejection);
        assert forall|position: nat| #[trigger]
            rejected_in::<(A, B, C, D, E, F, G, H, I, J, K), L, T, State>(
                input,
                state,
                position,
                rejection,
            ) implies Self::rejected_at(input, state, position, rejection) by {}
    }

    proof fn lemma_deterministic(
        input: T,
        state: State,
        r1: Result<(A, B, C, D, E, F, G, H, I, J, K, L), Rejection>,
        r2: Result<(A, B, C, D, E, F, G, H, I, J, K, L), Rejection>,
    ) {
        lemma_extended_deterministic::<(A, B, C, D, E, F, G, H, I, J, K), L, T, State>(input, state);
    }
}

} // verus!
