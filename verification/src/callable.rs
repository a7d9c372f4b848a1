//! Callables of every number of parameters, taken as one.
use vstd::prelude::*;

verus! {

/// A callable that can be applied to its parameters given as one tuple: every
/// function or closure of up to twelve parameters.
///
/// It is what lets the invocation protocol be written once for every number of
/// parameters.
pub trait Callable<Args>: Sized {
    /// What the callable gives back.
    type Output;

    /// Whether the callable may be called with `args`.
    spec fn accepts(self, args: Args) -> bool;

    /// Whether `output` is what the callable may give for `args`.
    spec fn yields(self, args: Args, output: Self::Output) -> bool;

    /// Calls the callable with the members of `args` as its parameters, in
    /// their order.
    fn call(self, args: Args) -> (output: Self::Output)
        requires
            self.accepts(args),
        ensures
            self.yields(args, output),
    ;
}

impl<Func, Output> Callable<()> for Func where Func: FnOnce() -> Output {
    type Output = Output;

    open spec fn accepts(self, args: ()) -> bool {
        call_requires(self, args)
    }

    open spec fn yields(self, args: (), output: Output) -> bool {
        call_ensures(self, args, output)
    }

    fn call(self, args: ()) -> (output: Output) {
        let () = args;
        self()
    }
}

impl<Func, Output, A> Callable<(A,)> for Func where Func: FnOnce(A) -> Output {
    type Output = Output;

    open spec fn accepts(self, args: (A,)) -> bool {
        call_requires(self, args)
    }

    open spec fn yields(self, args: (A,), output: Output) -> bool {
        call_ensures(self, args, output)
    }

    fn call(self, args: (A,)) -> (output: Output) {
        let (a,) = args;
        self(a)
    }
}

impl<Func, Output, A, B> Callable<(A, B)> for Func where Func: FnOnce(A, B) -> Output {
    type Output = Output;

    open spec fn accepts(self, args: (A, B)) -> bool {
        call_requires(self, args)
    }

    open spec fn yields(self, args: (A, B), output: Output) -> bool {
        call_ensures(self, args, output)
    }

    fn call(self, args: (A, B)) -> (output: Output) {
        let (a, b) = args;
        self(a, b)
    }
}

impl<Func, Output, A, B, C> Callable<(A, B, C)> for Func where Func: FnOnce(A, B, C) -> Output {
    type Output = Output;

    open spec fn accepts(self, args: (A, B, C)) -> bool {
        call_requires(self, args)
    }

    open spec fn yields(self, args: (A, B, C), output: Output) -> bool {
        call_ensures(self, args, output)
    }

    fn call(self, args: (A, B, C)) -> (output: Output) {
        let (a, b, c) = args;
        self(a, b, c)
    }
}

impl<Func, Output, A, B, C, D> Callable<(A, B, C, D)> for Func where
    Func: FnOnce(A, B, C, D) -> Output,
 {
    type Output = Output;

    open spec fn accepts(self, args: (A, B, C, D)) -> bool {
        call_requires(self, args)
    }

    open spec fn yields(self, args: (A, B, C, D), output: Output) -> bool {
        call_ensures(self, args, output)
    }

    fn call(self, args: (A, B, C, D)) -> (output: Output) {
        let (a, b, c, d) = args;
        self(a, b, c, d)
    }
}

impl<Func, Output, A, B, C, D, E> Callable<(A, B, C, D, E)> for Func where
    Func: FnOnce(A, B, C, D, E) -> Output,
 {
    type Output = Output;

    open spec fn accepts(self, args: (A, B, C, D, E)) -> bool {
        call_requires(self, args)
    }

    open spec fn yields(self, args: (A, B, C, D, E), output: Output) -> bool {
        call_ensures(self, args, output)
    }

    fn call(self, args: (A, B, C, D, E)) -> (output: Output) {
        let (a, b, c, d, e) = args;
        self(a, b, c, d, e)
    }
}

impl<Func, Output, A, B, C, D, E, F> Callable<(A, B, C, D, E, F)> for Func where
    Func: FnOnce(A, B, C, D, E, F) -> Output,
 {
    type Output = Output;

    open spec fn accepts(self, args: (A, B, C, D, E, F)) -> bool {
        call_requires(self, args)
    }

    open spec fn yields(self, args: (A, B, C, D, E, F), output: Output) -> bool {
        call_ensures(self, args, output)
    }

    fn call(self, args: (A, B, C, D, E, F)) -> (output: Output) {
        let (a, b, c, d, e, f) = args;
        self(a, b, c, d, e, f)
    }
}

impl<Func, Output, A, B, C, D, E, F, G> Callable<(A, B, C, D, E, F, G)> for Func where
    Func: FnOnce(A, B, C, D, E, F, G) -> Output,
 {
    type Output = Output;

    open spec fn accepts(self, args: (A, B, C, D, E, F, G)) -> bool {
        call_requires(self, args)
    }

    open spec fn yields(self, args: (A, B, C, D, E, F, G), output: Output) -> bool {
        call_ensures(self, args, output)
    }

    fn call(self, args: (A, B, C, D, E, F, G)) -> (output: Output) {
        let (a, b, c, d, e, f, g) = args;
        self(a, b, c, d, e, f, g)
    }
}

impl<Func, Output, A, B, C, D, E, F, G, H> Callable<(A, B, C, D, E, F, G, H)> for Func where
    Func: FnOnce(A, B, C, D, E, F, G, H) -> Output,
 {
    type Output = Output;

    open spec fn accepts(self, args: (A, B, C, D, E, F, G, H)) -> bool {
        call_requires(self, args)
    }

    open spec fn yields(self, args: (A, B, C, D, E, F, G, H), output: Output) -> bool {
        call_ensures(self, args, output)
    }

    fn call(self, args: (A, B, C, D, E, F, G, H)) -> (output: Output) {
        let (a, b, c, d, e, f, g, h) = args;
        self(a, b, c, d, e, f, g, h)
    }
}

impl<Func, Output, A, B, C, D, E, F, G, H, I> Callable<(A, B, C, D, E, F, G, H, I)> for Func where
    Func: FnOnce(A, B, C, D, E, F, G, H, I) -> Output,
 {
    type Output = Output;

    open spec fn accepts(self, args: (A, B, C, D, E, F, G, H, I)) -> bool {
        call_requires(self, args)
    }

    open spec fn yields(self, args: (A, B, C, D, E, F, G, H, I), output: Output) -> bool {
        call_ensures(self, args, output)
    }

    fn call(self, args: (A, B, C, D, E, F, G, H, I)) -> (output: Output) {
        let (a, b, c, d, e, f, g, h, i) = args;
        self(a, b, c, d, e, f, g, h, i)
    }
}

impl<Func, Output, A, B, C, D, E, F, G, H, I, J> Callable<(A, B, C, D, E, F, G, H, I, J)> for Func where
    Func: FnOnce(A, B, C, D, E, F, G, H, I, J) -> Output,
 {
    type Output = Output;

    open spec fn accepts(self, args: (A, B, C, D, E, F, G, H, I, J)) -> bool {
        call_requires(self, args)
    }

    open spec fn yields(self, args: (A, B, C, D, E, F, G, H, I, J), output: Output) -> bool {
        call_ensures(self, args, output)
    }

    fn call(self, args: (A, B, C, D, E, F, G, H, I, J)) -> (output: Output) {
        let (a, b, c, d, e, f, g, h, i, j) = args;
        self(a, b, c, d, e, f, g, h, i, j)
    }
}

impl<Func, Output, A, B, C, D, E, F, G, H, I, J, K> Callable<(A, B, C, D, E, F, G, H, I, J, K)> for Func where
    Func: FnOnce(A, B, C, D, E, F, G, H, I, J, K) -> Output,
 {
    type Output = Output;

    open spec fn accepts(self, args: (A, B, C, D, E, F, G, H, I, J, K)) -> bool {
        call_requires(self, args)
    }

    open spec fn yields(self, args: (A, B, C, D, E, F, G, H, I, J, K), output: Output) -> bool {
        call_ensures(self, args, output)
    }

    fn call(self, args: (A, B, C, D, E, F, G, H, I, J, K)) -> (output: Output) {
        let (a, b, c, d, e, f, g, h, i, j, k) = args;
        self(a, b, c, d, e, f, g, h, i, j, k)
    }
}

impl<Func, Output, A, B, C, D, E, F, G, H, I, J, K, L> Callable<(A, B, C, D, E, F, G, H, I, J, K, L)> for Func where
    Func: FnOnce(A, B, C, D, E, F, G, H, I, J, K, L) -> Output,
 {
    type Output = Output;

    open spec fn accepts(self, args: (A, B, C, D, E, F, G, H, I, J, K, L)) -> bool {
        call_requires(self, args)
    }

    open spec fn yields(self, args: (A, B, C, D, E, F, G, H, I, J, K, L), output: Output) -> bool {
        call_ensures(self, args, output)
    }

    fn call(self, args: (A, B, C, D, E, F, G, H, I, J, K, L)) -> (output: Output) {
        let (a, b, c, d, e, f, g, h, i, j, k, l) = args;
        self(a, b, c, d, e, f, g, h, i, j, k, l)
    }
}

} // verus!
