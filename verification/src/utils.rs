//! Small tasks that the operators are built from.

use crate::custom_fn::MapFnOnce;
use crate::task::Task;
use core::task::Context;
use core::task::Poll;
use vstd::prelude::*;

verus! {

/// A task whose output passes through a mapper. The mapper is held until the
/// output has come.
pub struct MapFuture<Fut, Fun> {
    pub fut: Fut,
    pub fun: Option<Fun>,
}

impl<Fut, Fun> Task for MapFuture<Fut, Fun> where Fut: Task, Fun: MapFnOnce<Fut::Output> {
    type Output = Fun::Out;

    open spec fn pollable(&self) -> bool {
        &&& self.fut.pollable()
        &&& self.fun matches Some(fun) && fun.callable()
    }

    /// One poll is one poll of the inner task. The mapper is called on the
    /// output, once, and is gone after that.
    open spec fn polls(pre: Self, post: Self, out: Poll<Fun::Out>) -> bool {
        exists|inner: Poll<Fut::Output>|
            {
                &&& #[trigger] Fut::polls(pre.fut, post.fut, inner)
                &&& match inner {
                    Poll::Pending => out is Pending && post.fun == pre.fun,
                    Poll::Ready(value) => {
                        &&& out matches Poll::Ready(mapped)
                        &&& pre.fun matches Some(fun)
                        &&& fun.maps_once(value, mapped)
                        &&& post.fun is None
                    },
                }
            }
    }

    fn poll(&mut self, cx: &mut Context<'_>) -> (out: Poll<Fun::Out>) {
        let inner = self.fut.poll(cx);
        let ghost witness = inner;
        let out = match inner {
            Poll::Pending => Poll::Pending,
            Poll::Ready(value) => {
                let fun = self.fun.take().unwrap();
                Poll::Ready(fun.map_exec_once(value))
            },
        };
        assert(Fut::polls(old(self).fut, self.fut, witness));
        out
    }
}

/// The task that passes the output of `fut` through `fun`.
pub fn map_future<Fut, Fun>(fut: Fut, fun: Fun) -> (task: MapFuture<Fut, Fun>) where
    Fut: Task,
    Fun: MapFnOnce<Fut::Output>,

    ensures
        task.fut == fut,
        task.fun == Some(fun),
{
    MapFuture { fut, fun: Some(fun) }
}

} // verus!
