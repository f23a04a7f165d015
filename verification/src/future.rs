//! Instrumentation of futures: a context that is handed the future's result
//! exactly once, when the future completes.
use vstd::prelude::*;

verus! {

/// What is done with the result of an instrumented future when it completes,
/// such as ending a span or recording a metric.
pub trait InstrumentedFutureContext<T> {
    /// Called once with the result that the future produced.
    fn on_result(self, result: &T);
}

/// A future together with the context that receives its result.
///
/// It is `Pending` while the wrapped future runs and `Complete` once the
/// future has produced its result and its context has been handed out to
/// receive it.
pub enum InstrumentedFuture<F, C> {
    /// The wrapped future is running; `context` waits for its result.
    Pending {
        /// The wrapped future.
        future: F,
        /// The context that receives the result.
        context: C,
    },
    /// The future has completed and its context has been handed out.
    Complete,
}

impl<F, C> InstrumentedFuture<F, C> {
    /// An instrumented future in the `Pending` state.
    pub fn new(future: F, context: C) -> (r: Self)
        ensures
            r == (InstrumentedFuture::Pending { future, context }),
    {
        InstrumentedFuture::Pending { future, context }
    }

    /// Whether the future has completed.
    pub fn is_complete(&self) -> (r: bool)
        ensures
            r == (*self is Complete),
    {
        match self {
            InstrumentedFuture::Pending { .. } => false,
            InstrumentedFuture::Complete => true,
        }
    }

    /// Finishes the instrumented future once the wrapped future has produced
    /// its output: drops the wrapped future, leaves the instrumented future
    /// `Complete`, and hands back the context that was waiting, which the
    /// caller then passes the output to with `on_result`. The context is moved
    /// out, and a completed future cannot complete again, so the context is
    /// called at most once.
    pub fn complete(&mut self) -> (c: C)
        requires
            *old(self) is Pending,
        ensures
            *final(self) is Complete,
            *old(self) matches InstrumentedFuture::Pending { context, .. } && c == context,
    {
        let mut taken = InstrumentedFuture::Complete;
        std::mem::swap(self, &mut taken);
        match taken {
            InstrumentedFuture::Pending { future, context } => {
                {
                    let _finished = future;
                }
                context
            },
            InstrumentedFuture::Complete => vstd::pervasive::unreached(),
        }
    }
}

} // verus!
