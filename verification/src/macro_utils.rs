//! Helpers for writing operators as plain functions from a flow to what is
//! made of it. Each fixes, by its bounds, the shape of the operator.

use crate::flow::Flow;
use crate::my_try::MyTry;
use crate::ops::WrapOp;
use vstd::prelude::*;

verus! {

/// A wrapper without `Copy`, so that the value in it is moved where it is
/// used.
pub struct NotCopy<T>(pub T);

/// The operator that applies `f` to a flow.
pub fn _flow_op<Yield, Resume, Return, Fl, Out, F>(f: F) -> (op: WrapOp<F>) where
    Fl: Flow<Resume, Yield = Yield, Return = Return>,
    F: FnOnce(Fl) -> Out,

    ensures
        op.0 == f,
{
    WrapOp(f)
}

/// The operator that applies `f` to a flow and gives a flow again.
pub fn _flow_to_flow_op<Yield1, Resume1, Return1, Yield2, Resume2, Return2, Fl, Out, F>(f: F) -> (op:
    WrapOp<F>) where
    Fl: Flow<Resume1, Yield = Yield1, Return = Return1>,
    Out: Flow<Resume2, Yield = Yield2, Return = Return2>,
    F: FnOnce(Fl) -> Out,

    ensures
        op.0 == f,
{
    _flow_op::<Yield1, Resume1, Return1, Fl, Out, F>(f)
}

/// The operator that applies `f` to a flow and gives a flow with the same
/// inputs and the same result.
pub fn _flow_transform_op<Yield1, Resume, Return, Yield2, Fl, Out, F>(f: F) -> (op: WrapOp<F>) where
    Fl: Flow<Resume, Yield = Yield1, Return = Return>,
    Out: Flow<Resume, Yield = Yield2, Return = Return>,
    F: FnOnce(Fl) -> Out,

    ensures
        op.0 == f,
{
    _flow_op::<Yield1, Resume, Return, Fl, Out, F>(f)
}

/// The operator that applies `f` to a flow and gives a flow with the same
/// inputs, whose result is a success with the result of the first flow or a
/// failure.
pub fn _flow_try_transform_op<Yield1, Resume, Return1, Yield2, Return2, Fl, Out, F>(f: F) -> (op:
    WrapOp<F>) where
    Return2: MyTry<Continue = Return1>,
    Fl: Flow<Resume, Yield = Yield1, Return = Return1>,
    Out: Flow<Resume, Yield = Yield2, Return = Return2>,
    F: FnOnce(Fl) -> Out,

    ensures
        op.0 == f,
{
    _flow_op::<Yield1, Resume, Return1, Fl, Out, F>(f)
}

} // verus!
