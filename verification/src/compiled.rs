use vstd::prelude::*;

use core::marker::PhantomData;

use crate::error::Error;
use crate::iteration::Iteration;

verus! {

/// A recipe for building a concrete iteration once a first sample of the
/// parameters is seen.  Users of the engine implement this for their
/// build-time option records.
pub trait Compiled<P, I>: Sized {
    /// Whether `it` is a possible result of compiling these options against
    /// `params`.  An implementation that does not say what it builds may
    /// leave the default, which says nothing.
    open spec fn compiles_to(&self, params: &P, it: &I) -> bool {
        true
    }

    /// Builds the concrete iteration for the given parameters.
    fn compile(&self, params: &P) -> (r: I)
        ensures
            self.compiles_to(params, &r),
    ;
}

/// A lazily compiling wrapper: it starts as a set of build-time options
/// and, on the first call that carries parameters, compiles them against
/// that first sample into a concrete iteration, replaces its own state with
/// it, and forwards the call.  Every later call goes straight to the
/// compiled iteration; the transition is irreversible and happens exactly
/// once.  Calls that need bound state fail while still uncompiled, since
/// compilation needs a parameter sample.
pub enum CompiledIteration<O, I, P> where O: Compiled<P, I>, I: Iteration<P> {
    /// Not yet compiled: the build-time options.
    Options(O, PhantomData<P>),
    /// Compiled: the concrete iteration every call forwards to.
    Iteration(I),
}

impl<O, I, P> CompiledIteration<O, I, P> where O: Compiled<P, I>, I: Iteration<P> {
    /// Creates a wrapper that will compile the options on first use.
    pub fn new(options: O) -> (r: Self)
        ensures
            r == CompiledIteration::<O, I, P>::Options(options, PhantomData::<P>),
    {
        CompiledIteration::Options(options, PhantomData)
    }

    /// Whether the one-time compilation has happened.
    pub open spec fn is_compiled(self) -> bool {
        self is Iteration
    }
}

impl<O, I, P> Iteration<P> for CompiledIteration<O, I, P> where O: Compiled<P, I>, I: Iteration<
    P,
> {
    open spec fn bind_ens(pre: Self, post: Self, params: P, r: Result<(), Error>) -> bool {
        match pre {
            CompiledIteration::Options(o, _) => exists|i0: I|
                {
                    &&& #[trigger] o.compiles_to(&params, &i0)
                    &&& post matches CompiledIteration::Iteration(i2) && I::bind_ens(
                        i0,
                        i2,
                        params,
                        r,
                    )
                },
            CompiledIteration::Iteration(i1) => post matches CompiledIteration::Iteration(i2)
                && I::bind_ens(i1, i2, params, r),
        }
    }

    open spec fn evaluate_ens(pre: Self, post: Self, r: Result<(), Error>) -> bool {
        match pre {
            CompiledIteration::Options(_, _) => r == Err::<(), Error>(Error::NotBound) && post
                == pre,
            CompiledIteration::Iteration(i1) => post matches CompiledIteration::Iteration(i2)
                && I::evaluate_ens(i1, i2, r),
        }
    }

    open spec fn evaluate_async_ens(
        pre: Self,
        post: Self,
        r: Result<Vec<wgpu::CommandBuffer>, Error>,
    ) -> bool {
        match pre {
            CompiledIteration::Options(_, _) => r == Err::<Vec<wgpu::CommandBuffer>, Error>(
                Error::NotBound,
            ) && post == pre,
            CompiledIteration::Iteration(i1) => post matches CompiledIteration::Iteration(i2)
                && I::evaluate_async_ens(i1, i2, r),
        }
    }

    open spec fn evaluate_with_params_ens(
        pre: Self,
        post: Self,
        params: P,
        r: Result<(), Error>,
    ) -> bool {
        match pre {
            CompiledIteration::Options(o, _) => exists|i0: I|
                {
                    &&& #[trigger] o.compiles_to(&params, &i0)
                    &&& post matches CompiledIteration::Iteration(i2)
                        && I::evaluate_with_params_ens(i0, i2, params, r)
                },
            CompiledIteration::Iteration(i1) => post matches CompiledIteration::Iteration(i2)
                && I::evaluate_with_params_ens(i1, i2, params, r),
        }
    }

    open spec fn evaluate_with_params_async_ens(
        pre: Self,
        post: Self,
        params: P,
        r: Result<Vec<wgpu::CommandBuffer>, Error>,
    ) -> bool {
        match pre {
            CompiledIteration::Options(o, _) => exists|i0: I|
                {
                    &&& #[trigger] o.compiles_to(&params, &i0)
                    &&& post matches CompiledIteration::Iteration(i2)
                        && I::evaluate_with_params_async_ens(i0, i2, params, r)
                },
            CompiledIteration::Iteration(i1) => post matches CompiledIteration::Iteration(i2)
                && I::evaluate_with_params_async_ens(i1, i2, params, r),
        }
    }

    fn bind(&mut self, params: &P) -> (r: Result<(), Error>) {
        match self {
            CompiledIteration::Options(options, _) => {
                let mut it = options.compile(params);
                let ghost it0 = it;
                let r = it.bind(params);
                *self = CompiledIteration::Iteration(it);
                r
            },
            CompiledIteration::Iteration(it) => it.bind(params),
        }
    }

    fn evaluate(&mut self) -> (r: Result<(), Error>) {
        match self {
            CompiledIteration::Options(_, _) => Err(Error::NotBound),
            CompiledIteration::Iteration(it) => it.evaluate(),
        }
    }

    fn evaluate_async(&mut self) -> (r: Result<Vec<wgpu::CommandBuffer>, Error>) {
        match self {
            CompiledIteration::Options(_, _) => Err(Error::NotBound),
            CompiledIteration::Iteration(it) => it.evaluate_async(),
        }
    }

    fn evaluate_with_params(&mut self, params: &P) -> (r: Result<(), Error>) {
        match self {
            CompiledIteration::Options(options, _) => {
                let mut it = options.compile(params);
                let ghost it0 = it;
                let r = it.evaluate_with_params(params);
                *self = CompiledIteration::Iteration(it);
                r
            },
            CompiledIteration::Iteration(it) => it.evaluate_with_params(params),
        }
    }

    fn evaluate_with_params_async(&mut self, params: &P) -> (r: Result<
        Vec<wgpu::CommandBuffer>,
        Error,
    >) {
        match self {
            CompiledIteration::Options(options, _) => {
                let mut it = options.compile(params);
                let ghost it0 = it;
                let r = it.evaluate_with_params_async(params);
                *self = CompiledIteration::Iteration(it);
                r
            },
            CompiledIteration::Iteration(it) => it.evaluate_with_params_async(params),
        }
    }
}


/// Lazy compilation happens exactly once: any parameterized call on an
/// uncompiled wrapper leaves it compiled, and any call on a compiled
/// wrapper leaves it compiled — the options are never compiled a second
/// time, every later call forwards to the iteration built from the first
/// parameter sample.
pub proof fn lemma_compiled_once<O, I, P>(
    pre: CompiledIteration<O, I, P>,
    post: CompiledIteration<O, I, P>,
    params: P,
    r: Result<(), Error>,
) where O: Compiled<P, I>, I: Iteration<P>
    requires
        CompiledIteration::<O, I, P>::bind_ens(pre, post, params, r),
    ensures
        post.is_compiled(),
        pre.is_compiled() ==> (exists|i1: I, i2: I|
            pre == CompiledIteration::<O, I, P>::Iteration(i1) && post
                == CompiledIteration::<O, I, P>::Iteration(i2) && #[trigger] I::bind_ens(
                i1,
                i2,
                params,
                r,
            )),
{
    match pre {
        CompiledIteration::Options(o, _) => {
        },
        CompiledIteration::Iteration(i1) => {
            match post {
                CompiledIteration::Iteration(i2) => {
                    assert(I::bind_ens(i1, i2, params, r));
                },
                CompiledIteration::Options(_, _) => {
                    assert(false);
                },
            }
        },
    }
}

} // verus!

