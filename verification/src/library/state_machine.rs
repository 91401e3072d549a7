use std::marker::PhantomData;
use std::sync::mpsc::Sender;
use std::sync::Arc;
use vstd::prelude::*;

verus! {

/// The sending end of a channel of the standard library. Nothing is said of
/// it: it is handed through to the function that runs an effect.
#[verifier::external_type_specification]
#[verifier::external_body]
#[verifier::reject_recursive_types(T)]
pub struct ExSender<T>(Sender<T>);

/// A machine that is driven by events: where it starts, how a state takes
/// an event in, how a state is shown, and how an effect is run. The function
/// that runs an effect sends the events it leads to through the channel it is
/// given.
#[verifier::reject_recursive_types(TState)]
#[verifier::reject_recursive_types(TEvent)]
#[verifier::reject_recursive_types(TEffect)]
#[verifier::reject_recursive_types(T)]
#[verifier::reject_recursive_types(R)]
#[verifier::reject_recursive_types(E)]
pub struct StateMachine<TState, TEvent, TEffect, T, R, E> where
    T: Fn(TState, TEvent) -> (TState, Vec<TEffect>),
    R: Fn(&TState),
    E: Fn(TEffect, Sender<TEvent>),
 {
    pub init: (TState, Vec<TEffect>),
    pub transition_fn: Arc<T>,
    pub render_fn: Arc<R>,
    pub run_effect_fn: Arc<E>,
    pub _event: PhantomData<TEvent>,
}

impl<TState, TEvent, TEffect, T, R, E> StateMachine<TState, TEvent, TEffect, T, R, E> where
    T: Fn(TState, TEvent) -> (TState, Vec<TEffect>),
    R: Fn(&TState),
    E: Fn(TEffect, Sender<TEvent>),
 {
    pub fn new(init: (TState, Vec<TEffect>), transition_fn: T, render_fn: R, run_effect_fn: E) -> (m:
        Self)
        ensures
            m.init == init,
            *m.transition_fn == transition_fn,
            *m.render_fn == render_fn,
            *m.run_effect_fn == run_effect_fn,
    {
        StateMachine {
            init,
            transition_fn: Arc::new(transition_fn),
            render_fn: Arc::new(render_fn),
            run_effect_fn: Arc::new(run_effect_fn),
            _event: PhantomData,
        }
    }

    /// One turn of the machine: the state takes the event in, and the new
    /// state is shown. What comes back is what the transition function gives
    /// for the state and the event.
    pub fn step(&self, state: TState, event: TEvent) -> (r: (TState, Vec<TEffect>))
        requires
            self.transition_fn.requires((state, event)),
            forall|s: &TState| #[trigger] self.render_fn.requires((s,)),
        ensures
            self.transition_fn.ensures((state, event), r),
    {
        let (next, effects) = (self.transition_fn)(state, event);
        (self.render_fn)(&next);
        (next, effects)
    }
}

} // verus!
