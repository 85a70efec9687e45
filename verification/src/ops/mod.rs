//! Operators: what turns one flow into another, or into a task.

pub mod compose;
pub mod flatten;
pub mod for_each;
pub mod input;
pub mod latest;
pub mod map;
pub mod merge_all;
pub mod transform;
pub mod try_unwrap;
pub mod zip;

pub use compose::compose_with;
pub use flatten::concat_map;
pub use flatten::flatten;
pub use flatten::flatten_init;
pub use flatten::switch_map;
pub use for_each::feedback;
pub use for_each::for_each;
pub use for_each::for_each_init;
pub use for_each::try_feedback;
pub use for_each::try_for_each;
pub use for_each::try_for_each_init;
pub use input::discard_input;
pub use input::map_input;
pub use latest::latest;
pub use map::map_return_sync;
pub use map::map_sync;
pub use merge_all::merge_all;
pub use merge_all::merge_map;
pub use transform::filter;
pub use transform::map_each;
pub use transform::transform_each;
pub use transform::try_transform_each;
pub use try_unwrap::try_unwrap;
pub use zip::zip;
pub use zip::zip_with;

use crate::flow::Flow;
use core::marker::PhantomData;
use vstd::prelude::*;

verus! {

/// Something that can be applied to a flow.
pub trait FlowOp<Fl: Flow<R>, R>: Sized {
    type Output;

    /// Whether the operator may be applied to `flow`.
    open spec fn accepts(&self, flow: Fl) -> bool {
        true
    }

    /// What applying the operator to `flow` can give.
    open spec fn applies(self, flow: Fl, out: Self::Output) -> bool {
        true
    }

    fn execute(self, flow: Fl) -> (out: Self::Output)
        requires
            self.accepts(flow),
        ensures
            self.applies(flow, out),
    ;
}

impl<Fun: FnOnce(Fl) -> Out, Out, Fl: Flow<R>, R> FlowOp<Fl, R> for Fun {
    type Output = Out;

    open spec fn accepts(&self, flow: Fl) -> bool {
        call_requires(*self, (flow,))
    }

    open spec fn applies(self, flow: Fl, out: Out) -> bool {
        call_ensures(self, (flow,), out)
    }

    fn execute(self, flow: Fl) -> (out: Out) {
        self(flow)
    }
}

/// An operator in a wrapper of the library's own, so that methods can be
/// offered on every operator.
pub struct WrapOp<Op>(pub Op);

impl<Op> WrapOp<Op> {
    pub fn execute<Fl, R>(self, flow: Fl) -> (out: Op::Output) where Op: FlowOp<Fl, R>, Fl: Flow<R>
        requires
            self.0.accepts(flow),
        ensures
            self.0.applies(flow, out),
    {
        self.0.execute(flow)
    }
}

impl<Op: FlowOp<Fl, R>, Fl: Flow<R>, R> FlowOp<Fl, R> for WrapOp<Op> {
    type Output = Op::Output;

    open spec fn accepts(&self, flow: Fl) -> bool {
        self.0.accepts(flow)
    }

    open spec fn applies(self, flow: Fl, out: Op::Output) -> bool {
        self.0.applies(flow, out)
    }

    fn execute(self, flow: Fl) -> (out: Op::Output) {
        self.0.execute(flow)
    }
}

/// Two operators, one after the other: the second is applied to what the
/// first makes of a flow. `R2` is the type of the inputs of the flow in
/// between.
pub struct ChainOp<A, B, R2> {
    pub first: A,
    pub second: B,
    pub _between: PhantomData<R2>,
}

impl<Fl, R, A, B, R2> FlowOp<Fl, R> for ChainOp<A, B, R2> where
    Fl: Flow<R>,
    A: FlowOp<Fl, R>,
    A::Output: Flow<R2>,
    B: FlowOp<A::Output, R2>,
 {
    type Output = B::Output;

    open spec fn accepts(&self, flow: Fl) -> bool {
        &&& self.first.accepts(flow)
        &&& forall|mid: A::Output| #[trigger]
            self.first.applies(flow, mid) ==> self.second.accepts(mid)
    }

    open spec fn applies(self, flow: Fl, out: B::Output) -> bool {
        exists|mid: A::Output| #[trigger]
            self.first.applies(flow, mid) && self.second.applies(mid, out)
    }

    fn execute(self, flow: Fl) -> (out: B::Output) {
        let mid = self.first.execute(flow);
        assert(self.first.applies(flow, mid));
        self.second.execute(mid)
    }
}

/// The operator that applies `first` and then `second`.
pub fn chain<A, B, R2>(first: WrapOp<A>, second: WrapOp<B>) -> (op: WrapOp<ChainOp<A, B, R2>>)
    ensures
        op.0.first == first.0,
        op.0.second == second.0,
{
    WrapOp(ChainOp { first: first.0, second: second.0, _between: PhantomData })
}

} // verus!
