//! The invocation protocol, for every callable that can be a handler.
use crate::{converts, Arguments, Callable, Handler, Rejection};
use vstd::pervasive::strictly_cloned;
use vstd::prelude::*;

verus! {

/// Every callable that can be cloned, whose parameters can be extracted and
/// whose output converts into the input's type, is a handler. Its response has
/// the type of the input value, and its error is a [`Rejection`].
impl<T, Args, State, Func> Handler<T, Args, State> for Func where
    Func: Callable<Args> + Clone,
    Func::Output: Into<T>,
    Args: Arguments<T, State>,
 {
    type Response = T;

    type Error = Rejection;

    /// A clone of the handler accepts whatever parameters can be extracted.
    open spec fn admits(&self, input: T, state: State) -> bool {
        forall|handler: Func, args: Args|
            #![trigger handler.accepts(args)]
            strictly_cloned(*self, handler) && Args::extracted(input, state, Ok(args))
                ==> handler.accepts(args)
    }

    /// The invocation fails as the extraction of the parameters fails, and
    /// the handler has no part in that. It succeeds with what the output of a
    /// clone of the handler, called with the extracted parameters, converts
    /// into.
    open spec fn invoked(&self, input: T, state: State, r: Result<T, Rejection>) -> bool {
        match r {
            Ok(response) => exists|handler: Func, args: Args, output: Func::Output|
                {
                    &&& strictly_cloned(*self, handler)
                    &&& Args::extracted(input, state, Ok(args))
                    &&& #[trigger] handler.yields(args, output)
                    &&& converts(output, response)
                },
            Err(rejection) => Args::extracted(input, state, Err(rejection)),
        }
    }

    /// Runs the protocol on a clone of the handler, which stays as it is for
    /// the next invocation.
    fn invoke<Input: Into<T>>(&self, frame: Input, state: State) -> (r: Result<T, Rejection>) {
        let handler = self.clone();
        let input: T = frame.into();
        assert(self.admits(input, state));
        let r = match Args::extract_all(&input, &state) {
            Err(rejection) => Err(rejection),
            Ok(args) => {
                assert(strictly_cloned(*self, handler));
                Ok(handler.call(args).into())
            },
        };
        assert(self.invoked(input, state, r));
        r
    }
}

} // verus!
