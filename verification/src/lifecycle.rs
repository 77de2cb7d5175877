//! The vocabulary of the orchestrator and its mathematical model.
//!
//! [`Lifecycle`] is the abstract state; its spec functions define, for every
//! state and every event, the state that follows and the actions that are
//! emitted. The executable orchestrator is specified against them.

use vstd::prelude::*;

verus! {

/// Progress of the two-stage shutdown handshake. It only ever advances.
#[derive(Clone, Copy, Debug, PartialEq, Eq, Structural)]
pub enum ShutdownState {
    /// No interrupt has been seen.
    Running,
    /// One interrupt has been seen; the control session was asked to wind down.
    ShuttingDown,
    /// The lifecycle has ended.
    Terminated,
}

impl ShutdownState {
    /// Position in the order `Running < ShuttingDown < Terminated`.
    pub open spec fn rank(self) -> nat {
        match self {
            ShutdownState::Running => 0,
            ShutdownState::ShuttingDown => 1,
            ShutdownState::Terminated => 2,
        }
    }
}

/// The four event sources, in the order in which one pass visits them.
#[derive(Clone, Copy, Debug, PartialEq, Eq, Structural)]
pub enum Source {
    /// Credentials obtained from pairing requests on the local network.
    Discovery,
    /// The connect attempt that is in flight.
    Connect,
    /// Operator interrupts.
    Signal,
    /// The task of the current control session.
    Task,
}

impl Source {
    /// Position of the source within a pass.
    pub open spec fn position(self) -> nat {
        match self {
            Source::Discovery => 0,
            Source::Connect => 1,
            Source::Signal => 2,
            Source::Task => 3,
        }
    }
}

/// How a lifecycle ended successfully.
#[derive(Clone, Copy, Debug, PartialEq, Eq, Structural)]
pub enum Termination {
    /// The control task completed after a shutdown had been requested.
    Graceful,
    /// A second interrupt arrived while shutting down.
    Forced,
}

/// Conditions from which the orchestrator does not recover.
#[derive(Clone, Copy, Debug, PartialEq, Eq, Structural)]
pub enum Fatal {
    /// The connect attempt failed. No retry is made.
    ConnectionFailed,
    /// The control task completed although no shutdown had been requested.
    UnexpectedTermination,
}

/// What the driver has to do next.
#[derive(Clone, Copy, Debug, PartialEq, Eq, Structural)]
pub enum Directive {
    /// Poll this source once and report the outcome.
    Poll(Source),
    /// A whole pass made no progress: yield until some source is ready again.
    Suspend,
    /// The lifecycle has ended; the process exits normally.
    Exit(Termination),
    /// The lifecycle cannot continue; the process terminates abruptly.
    Abort(Fatal),
}

/// The outcome of polling one source.
#[derive(Debug, PartialEq, Eq)]
pub enum Event<C, S> {
    /// The polled source had nothing to report.
    NotReady(Source),
    /// Discovery accepted a pairing request and produced these credentials.
    Credentials(C),
    /// The connect attempt resolved to this session.
    Connected(S),
    /// The connect attempt failed.
    ConnectFailed,
    /// The operator interrupted the process.
    Interrupt,
    /// The current control task ran to completion.
    TaskCompleted,
}

impl<C, S> Event<C, S> {
    /// The source whose poll produces this event.
    pub open spec fn spec_source(&self) -> Source {
        match self {
            Event::NotReady(source) => *source,
            Event::Credentials(_) => Source::Discovery,
            Event::Connected(_) => Source::Connect,
            Event::ConnectFailed => Source::Connect,
            Event::Interrupt => Source::Signal,
            Event::TaskCompleted => Source::Task,
        }
    }

    /// The source whose poll produces this event.
    #[verifier::when_used_as_spec(spec_source)]
    pub fn source(&self) -> (source: Source)
        ensures
            source == self.spec_source(),
    {
        match self {
            Event::NotReady(source) => *source,
            Event::Credentials(_) => Source::Discovery,
            Event::Connected(_) => Source::Connect,
            Event::ConnectFailed => Source::Connect,
            Event::Interrupt => Source::Signal,
            Event::TaskCompleted => Source::Task,
        }
    }
}

/// One effect that the driver carries out on behalf of the orchestrator.
///
/// Connect attempts and control pairs are told apart by a number. A control
/// pair carries the number of the connect attempt whose session it was built
/// from.
#[derive(Debug, PartialEq, Eq)]
pub enum Action<C, S> {
    /// Send a fire-and-forget shutdown request to the handle of this pair.
    RequestShutdown { pair: u64 },
    /// Drop this connect attempt; its result is never looked at again.
    CancelConnect { attempt: u64 },
    /// Begin a connect attempt under this number with these credentials.
    StartConnect { attempt: u64, credentials: C },
    /// Let go of the handle of this pair; it is no longer current.
    DiscardHandle { pair: u64 },
    /// Hand the task of this pair over to run to completion on its own.
    DetachTask { pair: u64 },
    /// Build a mixer and a control pair from this session and keep both as
    /// current under this number.
    SpawnControl { pair: u64, session: S },
}

/// What reaches an orchestrator from its driver: a wake-up, or the outcome
/// of a poll.
pub enum Input<C, S> {
    /// The driver was woken after a suspension.
    Wake,
    /// The driver polled a source, with this outcome.
    Poll(Event<C, S>),
}

/// The state of an orchestrator.
#[derive(Clone, Copy, Debug, PartialEq, Eq)]
pub struct Lifecycle {
    /// Whether a discovery listener exists.
    pub discovery: bool,
    /// Number of the connect attempt in flight. `None` stands for an attempt
    /// that never resolves.
    pub pending_connect: Option<u64>,
    /// Number of the pair whose handle is current.
    pub current_handle: Option<u64>,
    /// Number of the pair whose task is current.
    pub current_task: Option<u64>,
    /// Progress of the shutdown handshake.
    pub shutdown_state: ShutdownState,
    /// What the driver has to do next.
    pub directive: Directive,
    /// Whether a source made progress in the pass that is under way.
    pub progress: bool,
    /// Number that the next connect attempt gets.
    pub next_attempt: u64,
}

/// The number after `n`; numbers wrap around.
pub open spec fn successor(n: u64) -> u64 {
    if n == u64::MAX {
        0
    } else {
        (n + 1) as u64
    }
}

impl Lifecycle {
    /// The states that an orchestrator can be in.
    pub open spec fn wf(self) -> bool {
        &&& self.directive == Directive::Poll(Source::Discovery) ==> self.discovery
        &&& self.directive == Directive::Poll(Source::Connect) ==> self.pending_connect is Some
        &&& self.directive == Directive::Poll(Source::Task) ==> self.current_task is Some
        &&& self.directive is Exit <==> self.shutdown_state == ShutdownState::Terminated
        &&& self.current_handle == self.current_task
        &&& self.pending_connect is Some ==> self.current_handle is None
    }

    /// The state before anything has happened: nothing is in flight, nothing
    /// is current, and the first pass is about to begin.
    pub open spec fn initial(discovery: bool) -> Lifecycle {
        Lifecycle {
            discovery,
            pending_connect: None,
            current_handle: None,
            current_task: None,
            shutdown_state: ShutdownState::Running,
            directive: if discovery {
                Directive::Poll(Source::Discovery)
            } else {
                Directive::Poll(Source::Signal)
            },
            progress: false,
            next_attempt: 0,
        }
    }

    /// The state in which an orchestrator starts. Credentials that are known
    /// at the start go through a credential swap before the first pass.
    pub open spec fn launched(discovery: bool, with_credentials: bool) -> Lifecycle {
        if with_credentials {
            let seeded = Lifecycle::initial(discovery).swapped();
            Lifecycle { directive: seeded.first_of_pass(), ..seeded }
        } else {
            Lifecycle::initial(discovery)
        }
    }

    /// Whether there is something to poll at `source`: a listener, a connect
    /// attempt in flight, a current task. The signal stream is always there.
    pub open spec fn has_subject(self, source: Source) -> bool {
        match source {
            Source::Discovery => self.discovery,
            Source::Connect => self.pending_connect is Some,
            Source::Signal => true,
            Source::Task => self.current_task is Some,
        }
    }

    /// The first source that a fresh pass polls. A slot without a connect
    /// attempt or without a listener has nothing to poll and is passed over.
    pub open spec fn first_of_pass(self) -> Directive {
        if self.discovery {
            Directive::Poll(Source::Discovery)
        } else if self.pending_connect is Some {
            Directive::Poll(Source::Connect)
        } else {
            Directive::Poll(Source::Signal)
        }
    }

    /// The end of a pass: another pass if this one made progress, else
    /// suspension.
    pub open spec fn end_of_pass(self) -> Lifecycle {
        if self.progress {
            Lifecycle { progress: false, directive: self.first_of_pass(), ..self }
        } else {
            Lifecycle { directive: Directive::Suspend, ..self }
        }
    }

    /// Moves on from `polled` to what follows it in the order of a pass:
    /// discovery, connect, signal, task.
    pub open spec fn advance(self, polled: Source) -> Lifecycle {
        match polled {
            Source::Discovery => if self.pending_connect is Some {
                Lifecycle { directive: Directive::Poll(Source::Connect), ..self }
            } else {
                Lifecycle { directive: Directive::Poll(Source::Signal), ..self }
            },
            Source::Connect => Lifecycle { directive: Directive::Poll(Source::Signal), ..self },
            Source::Signal => if self.current_task is Some {
                Lifecycle { directive: Directive::Poll(Source::Task), ..self }
            } else {
                self.end_of_pass()
            },
            Source::Task => self.end_of_pass(),
        }
    }

    /// The state after a credential swap: a fresh connect attempt is in
    /// flight and no control pair is current.
    pub open spec fn swapped(self) -> Lifecycle {
        Lifecycle {
            pending_connect: Some(self.next_attempt),
            current_handle: None,
            current_task: None,
            next_attempt: successor(self.next_attempt),
            ..self
        }
    }

    /// The actions of a credential swap, in order: the superseded attempt is
    /// cancelled, the new one begins, the handle is let go and the task is
    /// detached.
    pub open spec fn swap_actions<C, S>(self, credentials: C) -> Seq<Action<C, S>> {
        let cancel = match self.pending_connect {
            Some(attempt) => seq![Action::CancelConnect { attempt }],
            None => seq![],
        };
        let discard = match self.current_handle {
            Some(pair) => seq![Action::DiscardHandle { pair }],
            None => seq![],
        };
        let detach = match self.current_task {
            Some(pair) => seq![Action::DetachTask { pair }],
            None => seq![],
        };
        cancel + seq![Action::StartConnect { attempt: self.next_attempt, credentials }] + discard
            + detach
    }

    /// The shutdown request that goes to the current handle, if there is one.
    pub open spec fn shutdown_request<C, S>(self) -> Seq<Action<C, S>> {
        match self.current_handle {
            Some(pair) => seq![Action::RequestShutdown { pair }],
            None => seq![],
        }
    }

    /// Whether `event` answers the poll that the driver was asked to make.
    pub open spec fn accepts<C, S>(self, event: Event<C, S>) -> bool {
        self.directive == Directive::Poll(event.spec_source())
    }

    /// The state that follows `event`. An event that does not answer the
    /// directive changes nothing.
    pub open spec fn after<C, S>(self, event: Event<C, S>) -> Lifecycle {
        if !self.accepts(event) {
            self
        } else {
            match event {
                Event::NotReady(source) => self.advance(source),
                Event::Credentials(_) => Lifecycle { progress: true, ..self.swapped() }.advance(
                    Source::Discovery,
                ),
                Event::Connected(_) => Lifecycle {
                    pending_connect: None,
                    current_handle: self.pending_connect,
                    current_task: self.pending_connect,
                    progress: true,
                    ..self
                }.advance(Source::Connect),
                Event::ConnectFailed => Lifecycle {
                    directive: Directive::Abort(Fatal::ConnectionFailed),
                    ..self
                },
                Event::Interrupt => if self.shutdown_state == ShutdownState::Running {
                    Lifecycle {
                        shutdown_state: ShutdownState::ShuttingDown,
                        progress: true,
                        ..self
                    }.advance(Source::Signal)
                } else {
                    Lifecycle {
                        shutdown_state: ShutdownState::Terminated,
                        directive: Directive::Exit(Termination::Forced),
                        ..self
                    }
                },
                Event::TaskCompleted => if self.shutdown_state == ShutdownState::Running {
                    Lifecycle {
                        directive: Directive::Abort(Fatal::UnexpectedTermination),
                        ..self
                    }
                } else {
                    Lifecycle {
                        shutdown_state: ShutdownState::Terminated,
                        directive: Directive::Exit(Termination::Graceful),
                        ..self
                    }
                },
            }
        }
    }

    /// The actions that `event` gives rise to, in the order in which the
    /// driver carries them out.
    pub open spec fn emits<C, S>(self, event: Event<C, S>) -> Seq<Action<C, S>> {
        if !self.accepts(event) {
            seq![]
        } else {
            match event {
                Event::Credentials(credentials) => self.shutdown_request() + self.swap_actions(
                    credentials,
                ),
                Event::Connected(session) => match self.pending_connect {
                    Some(pair) => seq![Action::SpawnControl { pair, session }],
                    None => seq![],
                },
                Event::Interrupt => if self.shutdown_state == ShutdownState::Running {
                    self.shutdown_request()
                } else {
                    seq![]
                },
                _ => seq![],
            }
        }
    }

    /// The state after the driver has been woken: a suspended orchestrator
    /// starts a fresh pass, any other stays as it is.
    pub open spec fn woken(self) -> Lifecycle {
        if self.directive == Directive::Suspend {
            Lifecycle { progress: false, directive: self.first_of_pass(), ..self }
        } else {
            self
        }
    }

    /// The state that follows one input.
    pub open spec fn on<C, S>(self, input: Input<C, S>) -> Lifecycle {
        match input {
            Input::Wake => self.woken(),
            Input::Poll(event) => self.after(event),
        }
    }

    /// The actions that one input gives rise to.
    pub open spec fn actions_on<C, S>(self, input: Input<C, S>) -> Seq<Action<C, S>> {
        match input {
            Input::Wake => seq![],
            Input::Poll(event) => self.emits(event),
        }
    }

    /// The state after a sequence of inputs, taken in order.
    pub open spec fn run<C, S>(self, inputs: Seq<Input<C, S>>) -> Lifecycle
        decreases inputs.len(),
    {
        if inputs.len() == 0 {
            self
        } else {
            self.run(inputs.drop_last()).on(inputs.last())
        }
    }

    /// All actions that a sequence of inputs gives rise to, in order.
    pub open spec fn trace<C, S>(self, inputs: Seq<Input<C, S>>) -> Seq<Action<C, S>>
        decreases inputs.len(),
    {
        if inputs.len() == 0 {
            seq![]
        } else {
            self.trace(inputs.drop_last()) + self.run(inputs.drop_last()).actions_on(
                inputs.last(),
            )
        }
    }
}

} // verus!
