//! The executable orchestrator.
//!
//! A driver owns the live objects (the discovery listener, the connect
//! attempt, the control handle and task, the signal stream) and an
//! [`Orchestrator`]. It asks for the [`Directive`], polls the source that the
//! directive names, reports the outcome through [`Orchestrator::step`], and
//! carries out the actions that come back, in order.

use crate::lifecycle::{
    successor, Action, Directive, Event, Fatal, Lifecycle, ShutdownState, Source, Termination,
};
use vstd::prelude::*;

verus! {

/// The lifecycle state machine. Every value of this type is well formed.
pub struct Orchestrator {
    state: Lifecycle,
}

impl View for Orchestrator {
    type V = Lifecycle;

    closed spec fn view(&self) -> Lifecycle {
        self.state
    }
}

fn first_of_pass(state: &Lifecycle) -> (directive: Directive)
    ensures
        directive == state.first_of_pass(),
{
    if state.discovery {
        Directive::Poll(Source::Discovery)
    } else if state.pending_connect.is_some() {
        Directive::Poll(Source::Connect)
    } else {
        Directive::Poll(Source::Signal)
    }
}

fn end_of_pass(state: &mut Lifecycle)
    ensures
        *final(state) == old(state).end_of_pass(),
{
    if state.progress {
        state.progress = false;
        state.directive = first_of_pass(state);
    } else {
        state.directive = Directive::Suspend;
    }
}

fn advance(state: &mut Lifecycle, polled: Source)
    ensures
        *final(state) == old(state).advance(polled),
{
    match polled {
        Source::Discovery => {
            if state.pending_connect.is_some() {
                state.directive = Directive::Poll(Source::Connect);
            } else {
                state.directive = Directive::Poll(Source::Signal);
            }
        },
        Source::Connect => {
            state.directive = Directive::Poll(Source::Signal);
        },
        Source::Signal => {
            if state.current_task.is_some() {
                state.directive = Directive::Poll(Source::Task);
            } else {
                end_of_pass(state);
            }
        },
        Source::Task => {
            end_of_pass(state);
        },
    }
}

fn next_number(n: u64) -> (next: u64)
    ensures
        next == successor(n),
{
    if n == u64::MAX {
        0
    } else {
        n + 1
    }
}

fn request_shutdown<C, S>(state: &Lifecycle, actions: &mut Vec<Action<C, S>>)
    ensures
        final(actions)@ == old(actions)@ + state.shutdown_request::<C, S>(),
{
    if let Some(pair) = state.current_handle {
        actions.push(Action::RequestShutdown { pair });
    }
}

/// The credential swap. New credentials win over whatever is there: a
/// connect attempt in flight is cancelled and replaced by a fresh one, the
/// current handle is let go, and the current task is not dropped but
/// detached, so that the old session winds down while the new one connects.
fn credentials<C, S>(state: &mut Lifecycle, credentials: C, actions: &mut Vec<Action<C, S>>)
    ensures
        *final(state) == old(state).swapped(),
        final(actions)@ == old(actions)@ + old(state).swap_actions::<C, S>(credentials),
{
    if let Some(attempt) = state.pending_connect {
        actions.push(Action::CancelConnect { attempt });
    }
    let attempt = state.next_attempt;
    actions.push(Action::StartConnect { attempt, credentials });
    state.pending_connect = Some(attempt);
    state.next_attempt = next_number(attempt);
    if let Some(pair) = state.current_handle {
        actions.push(Action::DiscardHandle { pair });
    }
    state.current_handle = None;
    if let Some(pair) = state.current_task {
        actions.push(Action::DetachTask { pair });
    }
    state.current_task = None;
}

impl Orchestrator {
    #[verifier::type_invariant]
    spec fn well_formed(self) -> bool {
        self.state.wf()
    }

    /// Creates an orchestrator. With `enable_discovery` a discovery listener
    /// takes part in every pass. Credentials that are already known start a
    /// connect attempt at once.
    pub fn new<C, S>(enable_discovery: bool, credentials: Option<C>) -> (created: (
        Orchestrator,
        Vec<Action<C, S>>,
    ))
        ensures
            created.0@ == Lifecycle::launched(enable_discovery, credentials is Some),
            created.0@.wf(),
            created.1@ == match credentials {
                Some(c) => Lifecycle::initial(enable_discovery).swap_actions::<C, S>(c),
                None => Seq::<Action<C, S>>::empty(),
            },
    {
        let mut state = Lifecycle {
            discovery: enable_discovery,
            pending_connect: None,
            current_handle: None,
            current_task: None,
            shutdown_state: ShutdownState::Running,
            directive: if enable_discovery {
                Directive::Poll(Source::Discovery)
            } else {
                Directive::Poll(Source::Signal)
            },
            progress: false,
            next_attempt: 0,
        };
        let mut actions = Vec::new();
        if let Some(c) = credentials {
            self::credentials(&mut state, c, &mut actions);
            state.directive = first_of_pass(&state);
        }
        (Orchestrator { state }, actions)
    }

    /// The state of the lifecycle.
    pub fn state(&self) -> (state: Lifecycle)
        ensures
            state == self@,
            state.wf(),
    {
        proof {
            use_type_invariant(self);
        }
        self.state
    }

    /// What the driver has to do next.
    pub fn directive(&self) -> (directive: Directive)
        ensures
            directive == self@.directive,
    {
        self.state.directive
    }

    /// Tells the orchestrator that the driver has been woken. A suspended
    /// orchestrator begins a fresh pass; any other is left as it is. Returns
    /// the directive that holds afterwards.
    pub fn wake(&mut self) -> (directive: Directive)
        ensures
            final(self)@ == old(self)@.woken(),
            final(self)@.wf(),
            directive == final(self)@.directive,
    {
        proof {
            use_type_invariant(&*self);
        }
        let mut state = self.state;
        if state.directive == Directive::Suspend {
            state.progress = false;
            state.directive = first_of_pass(&state);
        }
        self.state = state;
        state.directive
    }

    /// Takes in the outcome of a poll. An event that answers the directive
    /// moves the lifecycle on and yields the actions that the driver carries
    /// out, in order. Any other event is handed back and changes nothing.
    pub fn step<C, S>(&mut self, event: Event<C, S>) -> (result: Result<
        Vec<Action<C, S>>,
        Event<C, S>,
    >)
        ensures
            final(self)@ == old(self)@.after(event),
            final(self)@.wf(),
            match result {
                Ok(actions) => old(self)@.accepts(event) && actions@ == old(self)@.emits(event),
                Err(rejected) => !old(self)@.accepts(event) && rejected == event,
            },
    {
        proof {
            use_type_invariant(&*self);
        }
        let mut state = self.state;
        if state.directive != Directive::Poll(event.source()) {
            return Err(event);
        }
        let mut actions = Vec::new();
        match event {
            Event::NotReady(source) => {
                advance(&mut state, source);
            },
            Event::Credentials(c) => {
                request_shutdown(&state, &mut actions);
                credentials(&mut state, c, &mut actions);
                state.progress = true;
                advance(&mut state, Source::Discovery);
            },
            Event::Connected(session) => {
                if let Some(pair) = state.pending_connect {
                    actions.push(Action::SpawnControl { pair, session });
                }
                state.current_handle = state.pending_connect;
                state.current_task = state.pending_connect;
                state.pending_connect = None;
                state.progress = true;
                advance(&mut state, Source::Connect);
            },
            Event::ConnectFailed => {
                state.directive = Directive::Abort(Fatal::ConnectionFailed);
            },
            Event::Interrupt => {
                if state.shutdown_state == ShutdownState::Running {
                    request_shutdown(&state, &mut actions);
                    state.shutdown_state = ShutdownState::ShuttingDown;
                    state.progress = true;
                    advance(&mut state, Source::Signal);
                } else {
                    state.shutdown_state = ShutdownState::Terminated;
                    state.directive = Directive::Exit(Termination::Forced);
                }
            },
            Event::TaskCompleted => {
                if state.shutdown_state == ShutdownState::Running {
                    state.directive = Directive::Abort(Fatal::UnexpectedTermination);
                } else {
                    state.shutdown_state = ShutdownState::Terminated;
                    state.directive = Directive::Exit(Termination::Graceful);
                }
            },
        }
        self.state = state;
        Ok(actions)
    }
}

} // verus!
