//! The handoff cell: the single slot through which a routine and the adapter
//! that drives it pass values to each other.

use vstd::prelude::*;

verus! {

/// What the handoff cell holds: nothing, an input on its way to the routine,
/// or an output on its way out.
#[derive(Debug)]
pub enum FlowState<Yield, Resume> {
    Empty,
    Resume(Resume),
    Yield(Yield),
}

impl<Yield, Resume> Default for FlowState<Yield, Resume> {
    fn default() -> (state: Self)
        ensures
            state is Empty,
    {
        FlowState::Empty
    }
}

/// The input that a cell in state `state` holds, if it holds one.
pub open spec fn resumed<Yield, Resume>(state: FlowState<Yield, Resume>) -> Option<Resume> {
    match state {
        FlowState::Resume(value) => Some(value),
        _ => None,
    }
}

/// The output that a cell in state `state` holds, if it holds one.
pub open spec fn yielded<Yield, Resume>(state: FlowState<Yield, Resume>) -> Option<Yield> {
    match state {
        FlowState::Yield(value) => Some(value),
        _ => None,
    }
}

/// The handle on a handoff cell. Every access to the cell goes through it.
#[derive(Debug)]
pub struct StateRef<Yield, Resume> {
    pub state: FlowState<Yield, Resume>,
}

impl<Yield, Resume> View for StateRef<Yield, Resume> {
    type V = FlowState<Yield, Resume>;

    open spec fn view(&self) -> FlowState<Yield, Resume> {
        self.state
    }
}

impl<Yield, Resume> StateRef<Yield, Resume> {
    /// The handle on a cell that holds `state`.
    pub fn new(state: FlowState<Yield, Resume>) -> (cell: Self)
        ensures
            cell@ == state,
    {
        StateRef { state }
    }

    /// Puts `new` into the cell and gives back what the cell held.
    #[must_use]
    pub fn replace(&mut self, new: FlowState<Yield, Resume>) -> (prev: FlowState<Yield, Resume>)
        ensures
            prev == old(self)@,
            final(self)@ == new,
    {
        let mut slot = new;
        core::mem::swap(&mut self.state, &mut slot);
        slot
    }

    /// Puts `new` into the cell. What the cell held is dropped.
    pub fn set(&mut self, new: FlowState<Yield, Resume>)
        ensures
            final(self)@ == new,
    {
        let _ = self.replace(new);
    }

    /// The state of the cell without the value in it.
    pub fn kind(&self) -> (kind: FlowState<(), ()>)
        ensures
            kind == match self@ {
                FlowState::Empty => FlowState::<(), ()>::Empty,
                FlowState::Resume(_) => FlowState::Resume(()),
                FlowState::Yield(_) => FlowState::Yield(()),
            },
    {
        match &self.state {
            FlowState::Empty => FlowState::Empty,
            FlowState::Resume(_) => FlowState::Resume(()),
            FlowState::Yield(_) => FlowState::Yield(()),
        }
    }

    pub fn is_yield(&self) -> (b: bool)
        ensures
            b == (self@ is Yield),
    {
        match self.kind() {
            FlowState::Yield(_) => true,
            _ => false,
        }
    }

    pub fn is_resume(&self) -> (b: bool)
        ensures
            b == (self@ is Resume),
    {
        match self.kind() {
            FlowState::Resume(_) => true,
            _ => false,
        }
    }

    pub fn is_empty(&self) -> (b: bool)
        ensures
            b == (self@ is Empty),
    {
        match self.kind() {
            FlowState::Empty => true,
            _ => false,
        }
    }

    /// Empties the cell and gives back what it held.
    pub fn take(&mut self) -> (prev: FlowState<Yield, Resume>)
        ensures
            prev == old(self)@,
            final(self)@ is Empty,
    {
        self.replace(FlowState::Empty)
    }

    /// Takes the input out of the cell, if it holds one. A cell that holds
    /// anything else is left as it is.
    pub fn take_resumed(&mut self) -> (value: Option<Resume>)
        ensures
            value == resumed(old(self)@),
            final(self)@ == if old(self)@ is Resume {
                FlowState::Empty
            } else {
                old(self)@
            },
    {
        if !self.is_resume() {
            return None;
        }
        match self.take() {
            FlowState::Resume(value) => Some(value),
            _ => None,
        }
    }

    /// Takes the output out of the cell, if it holds one. A cell that holds
    /// anything else is left as it is.
    pub fn take_yielded(&mut self) -> (value: Option<Yield>)
        ensures
            value == yielded(old(self)@),
            final(self)@ == if old(self)@ is Yield {
                FlowState::Empty
            } else {
                old(self)@
            },
    {
        if !self.is_yield() {
            return None;
        }
        match self.take() {
            FlowState::Yield(value) => Some(value),
            _ => None,
        }
    }

    /// The same handle, lent for a shorter time.
    pub fn reborrow_mut(&mut self) -> (cell: &mut Self)
        ensures
            *cell == *old(self),
            *final(self) == *final(cell),
    {
        self
    }
}

} // verus!
