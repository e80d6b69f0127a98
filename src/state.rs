use vstd::prelude::*;

verus! {

#[derive(Clone, Copy, Debug, PartialEq, Eq, Structural, Hash)]
pub enum GameState {
    Loading,
    Menu,
    Prepare,
    PrepareLevel,
    InLevel,
    Lost,
    Finished,
}

/// A change of state, queued during a frame and applied at its end.
#[derive(Clone, Copy, Debug, PartialEq, Eq, Structural)]
pub enum Transition {
    /// Replace the current state.
    Change(GameState),
    /// Suspend the current state under a new one.
    Push(GameState),
    /// Drop the whole stack for a single new state.
    Replace(GameState),
    /// Resume the suspended state.
    Pop,
}

#[derive(Clone, Copy, Debug, PartialEq, Eq, Structural)]
pub enum StateError {
    /// The state asked for is the current one.
    AlreadyInState,
    /// Another change is already queued for this frame.
    StateAlreadyQueued,
    /// Nothing is suspended under the current state.
    StackEmpty,
    /// An overlay is already on top of a suspended state.
    StackFull,
}

/// The deepest the stack gets: a level and one overlay on it.
pub const MAX_DEPTH: usize = 2;

/// The states, the current one last, and the change queued for the end of
/// the frame.
pub ghost struct StackView {
    pub stack: Seq<GameState>,
    pub scheduled: Option<Transition>,
}

/// The game's state stack.
pub struct StateStack {
    stack: Vec<GameState>,
    scheduled: Option<Transition>,
}

pub open spec fn current_of(v: StackView) -> GameState {
    v.stack.last()
}

/// At least one state, at most `MAX_DEPTH`, and a queued change that fits.
pub open spec fn stack_wf(v: StackView) -> bool {
    &&& 1 <= v.stack.len() <= MAX_DEPTH
    &&& (v.scheduled matches Some(Transition::Push(_)) ==> v.stack.len() < MAX_DEPTH)
    &&& (v.scheduled matches Some(Transition::Pop) ==> v.stack.len() > 1)
}

/// Queues `op`, over a change already queued only when `overwrite` holds.
pub open spec fn schedule_spec(v: StackView, op: Transition, overwrite: bool) -> Result<StackView, StateError> {
    match op {
        Transition::Pop => if !overwrite && v.scheduled is Some {
            Err(StateError::StateAlreadyQueued)
        } else if v.stack.len() <= 1 {
            Err(StateError::StackEmpty)
        } else {
            Ok(StackView { scheduled: Some(op), ..v })
        },
        Transition::Change(s) | Transition::Push(s) | Transition::Replace(s) => if current_of(v)
            == s {
            Err(StateError::AlreadyInState)
        } else if !overwrite && v.scheduled is Some {
            Err(StateError::StateAlreadyQueued)
        } else if op is Push && v.stack.len() >= MAX_DEPTH {
            Err(StateError::StackFull)
        } else {
            Ok(StackView { scheduled: Some(op), ..v })
        },
    }
}

/// The stack once the queued change is made, with nothing left queued.
pub open spec fn apply_spec(v: StackView) -> StackView {
    let stack = match v.scheduled {
        None => v.stack,
        Some(Transition::Change(s)) => v.stack.drop_last().push(s),
        Some(Transition::Push(s)) => v.stack.push(s),
        Some(Transition::Replace(s)) => seq![s],
        Some(Transition::Pop) => v.stack.drop_last(),
    };
    StackView { stack, scheduled: None }
}

/// What a request returns and leaves behind.
pub open spec fn request_result(
    old_view: StackView,
    new_view: StackView,
    r: Result<(), StateError>,
    op: Transition,
    overwrite: bool,
) -> bool {
    match schedule_spec(old_view, op, overwrite) {
        Ok(v) => r is Ok && new_view == v,
        Err(e) => r == Err::<(), StateError>(e) && new_view == old_view,
    }
}

impl View for StateStack {
    type V = StackView;

    closed spec fn view(&self) -> StackView {
        StackView { stack: self.stack@, scheduled: self.scheduled }
    }
}

impl StateStack {
    pub fn new(initial: GameState) -> (r: StateStack)
        ensures
            r@ == (StackView { stack: seq![initial], scheduled: None }),
            stack_wf(r@),
    {
        let r = StateStack { stack: vec![initial], scheduled: None };
        assert(r@.stack =~= seq![initial]);
        r
    }

    pub fn current(&self) -> (r: GameState)
        requires
            stack_wf(self@),
        ensures
            r == current_of(self@),
    {
        self.stack[self.stack.len() - 1]
    }

    pub fn depth(&self) -> (r: usize)
        ensures
            r == self@.stack.len(),
    {
        self.stack.len()
    }

    pub fn scheduled(&self) -> (r: Option<Transition>)
        ensures
            r == self@.scheduled,
    {
        self.scheduled
    }

    fn request(&mut self, op: Transition, overwrite: bool) -> (r: Result<(), StateError>)
        requires
            stack_wf(old(self)@),
        ensures
            request_result(old(self)@, final(self)@, r, op, overwrite),
            stack_wf(final(self)@),
    {
        let current = self.stack[self.stack.len() - 1];
        match op {
            Transition::Pop => {
                if !overwrite && self.scheduled.is_some() {
                    return Err(StateError::StateAlreadyQueued);
                }
                if self.stack.len() <= 1 {
                    return Err(StateError::StackEmpty);
                }
            },
            Transition::Change(s) | Transition::Push(s) | Transition::Replace(s) => {
                if current == s {
                    return Err(StateError::AlreadyInState);
                }
                if !overwrite && self.scheduled.is_some() {
                    return Err(StateError::StateAlreadyQueued);
                }
                if matches!(op, Transition::Push(_)) && self.stack.len() >= MAX_DEPTH {
                    return Err(StateError::StackFull);
                }
            },
        }
        self.scheduled = Some(op);
        Ok(())
    }

    /// Queues a change of the current state; fails if one is queued already.
    pub fn set(&mut self, state: GameState) -> (r: Result<(), StateError>)
        requires
            stack_wf(old(self)@),
        ensures
            request_result(old(self)@, final(self)@, r, Transition::Change(state), false),
            stack_wf(final(self)@),
    {
        self.request(Transition::Change(state), false)
    }

    /// Queues a change of the current state over any change queued.
    pub fn overwrite_set(&mut self, state: GameState) -> (r: Result<(), StateError>)
        requires
            stack_wf(old(self)@),
        ensures
            request_result(old(self)@, final(self)@, r, Transition::Change(state), true),
            stack_wf(final(self)@),
    {
        self.request(Transition::Change(state), true)
    }

    /// Queues an overlay state; fails if a change is queued already.
    pub fn push(&mut self, state: GameState) -> (r: Result<(), StateError>)
        requires
            stack_wf(old(self)@),
        ensures
            request_result(old(self)@, final(self)@, r, Transition::Push(state), false),
            stack_wf(final(self)@),
    {
        self.request(Transition::Push(state), false)
    }

    /// Queues an overlay state over any change queued.
    pub fn overwrite_push(&mut self, state: GameState) -> (r: Result<(), StateError>)
        requires
            stack_wf(old(self)@),
        ensures
            request_result(old(self)@, final(self)@, r, Transition::Push(state), true),
            stack_wf(final(self)@),
    {
        self.request(Transition::Push(state), true)
    }

    /// Queues the replacement of the whole stack; fails if a change is queued
    /// already.
    pub fn replace(&mut self, state: GameState) -> (r: Result<(), StateError>)
        requires
            stack_wf(old(self)@),
        ensures
            request_result(old(self)@, final(self)@, r, Transition::Replace(state), false),
            stack_wf(final(self)@),
    {
        self.request(Transition::Replace(state), false)
    }

    /// Queues the replacement of the whole stack over any change queued.
    pub fn overwrite_replace(&mut self, state: GameState) -> (r: Result<(), StateError>)
        requires
            stack_wf(old(self)@),
        ensures
            request_result(old(self)@, final(self)@, r, Transition::Replace(state), true),
            stack_wf(final(self)@),
    {
        self.request(Transition::Replace(state), true)
    }

    /// Queues the return to the suspended state; fails if a change is queued
    /// already.
    pub fn pop(&mut self) -> (r: Result<(), StateError>)
        requires
            stack_wf(old(self)@),
        ensures
            request_result(old(self)@, final(self)@, r, Transition::Pop, false),
            stack_wf(final(self)@),
    {
        self.request(Transition::Pop, false)
    }

    /// Queues the return to the suspended state over any change queued.
    pub fn overwrite_pop(&mut self) -> (r: Result<(), StateError>)
        requires
            stack_wf(old(self)@),
        ensures
            request_result(old(self)@, final(self)@, r, Transition::Pop, true),
            stack_wf(final(self)@),
    {
        self.request(Transition::Pop, true)
    }

    /// Makes the queued change, at the end of the frame.
    pub fn apply(&mut self)
        requires
            stack_wf(old(self)@),
        ensures
            final(self)@ == apply_spec(old(self)@),
            stack_wf(final(self)@),
    {
        match self.scheduled {
            None => {},
            Some(Transition::Change(s)) => {
                let last = self.stack.len() - 1;
                self.stack.set(last, s);
            },
            Some(Transition::Push(s)) => {
                self.stack.push(s);
            },
            Some(Transition::Replace(s)) => {
                self.stack = vec![s];
            },
            Some(Transition::Pop) => {
                self.stack.pop();
            },
        }
        self.scheduled = None;
        assert(self@.stack =~= apply_spec(old(self)@).stack);
    }
}

} // verus!
