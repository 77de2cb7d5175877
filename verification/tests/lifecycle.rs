use orchestrator::lifecycle::{
    Action, Directive, Event, Fatal, Lifecycle, ShutdownState, Source, Termination,
};
use orchestrator::orchestrator::Orchestrator;

type Ev = Event<&'static str, u32>;
type Act = Action<&'static str, u32>;

fn launch(discovery: bool, credentials: Option<&'static str>) -> (Orchestrator, Vec<Act>) {
    Orchestrator::new(discovery, credentials)
}

fn feed(orchestrator: &mut Orchestrator, event: Ev) -> Vec<Act> {
    match orchestrator.step(event) {
        Ok(actions) => actions,
        Err(rejected) => panic!("rejected {:?} at {:?}", rejected, orchestrator.directive()),
    }
}

/// Answers every poll with "not ready" until the directive is `wanted`.
fn idle_until(orchestrator: &mut Orchestrator, wanted: Directive) {
    let mut polls = 0;
    while orchestrator.directive() != wanted {
        match orchestrator.directive() {
            Directive::Poll(source) => {
                assert_eq!(feed(orchestrator, Event::NotReady(source)), vec![]);
            }
            other => panic!("reached {:?} while waiting for {:?}", other, wanted),
        }
        polls += 1;
        assert!(polls < 16);
    }
}

/// An orchestrator with pair 0 active and a fresh pass under way.
fn with_active_pair() -> Orchestrator {
    let (mut orchestrator, actions) = launch(true, Some("C1"));
    assert_eq!(actions, vec![Action::StartConnect { attempt: 0, credentials: "C1" }]);
    idle_until(&mut orchestrator, Directive::Poll(Source::Connect));
    assert_eq!(
        feed(&mut orchestrator, Event::Connected(11)),
        vec![Action::SpawnControl { pair: 0, session: 11 }]
    );
    idle_until(&mut orchestrator, Directive::Poll(Source::Discovery));
    orchestrator
}

#[test]
fn one_interrupt_then_completion_ends_gracefully() {
    let (mut orchestrator, actions) = launch(true, None);
    assert_eq!(actions, vec![]);
    assert_eq!(orchestrator.directive(), Directive::Poll(Source::Discovery));

    assert_eq!(
        feed(&mut orchestrator, Event::Credentials("C1")),
        vec![Action::StartConnect { attempt: 0, credentials: "C1" }]
    );
    assert_eq!(orchestrator.directive(), Directive::Poll(Source::Connect));
    assert_eq!(orchestrator.state().pending_connect, Some(0));

    assert_eq!(
        feed(&mut orchestrator, Event::Connected(7)),
        vec![Action::SpawnControl { pair: 0, session: 7 }]
    );
    let state = orchestrator.state();
    assert_eq!(state.pending_connect, None);
    assert_eq!(state.current_handle, Some(0));
    assert_eq!(state.current_task, Some(0));
    assert_eq!(orchestrator.directive(), Directive::Poll(Source::Signal));

    assert_eq!(
        feed(&mut orchestrator, Event::Interrupt),
        vec![Action::RequestShutdown { pair: 0 }]
    );
    assert_eq!(orchestrator.state().shutdown_state, ShutdownState::ShuttingDown);
    assert_eq!(orchestrator.directive(), Directive::Poll(Source::Task));

    assert_eq!(feed(&mut orchestrator, Event::TaskCompleted), vec![]);
    assert_eq!(orchestrator.state().shutdown_state, ShutdownState::Terminated);
    assert_eq!(orchestrator.directive(), Directive::Exit(Termination::Graceful));
}

#[test]
fn new_credentials_supersede_the_session() {
    let mut orchestrator = with_active_pair();

    assert_eq!(
        feed(&mut orchestrator, Event::Credentials("C2")),
        vec![
            Action::RequestShutdown { pair: 0 },
            Action::StartConnect { attempt: 1, credentials: "C2" },
            Action::DiscardHandle { pair: 0 },
            Action::DetachTask { pair: 0 },
        ]
    );
    let state = orchestrator.state();
    assert_eq!(state.pending_connect, Some(1));
    assert_eq!(state.current_handle, None);
    assert_eq!(state.current_task, None);
    assert_eq!(state.shutdown_state, ShutdownState::Running);
    assert_eq!(orchestrator.directive(), Directive::Poll(Source::Connect));

    assert_eq!(
        feed(&mut orchestrator, Event::Connected(22)),
        vec![Action::SpawnControl { pair: 1, session: 22 }]
    );
    let state = orchestrator.state();
    assert_eq!(state.current_handle, Some(1));
    assert_eq!(state.current_task, Some(1));
    assert_eq!(state.pending_connect, None);

    // The detached task is never polled again: the only task poll that
    // follows is for the new pair.
    idle_until(&mut orchestrator, Directive::Poll(Source::Task));
    assert_eq!(orchestrator.state().current_task, Some(1));
}

#[test]
fn two_interrupts_without_a_session_end_at_once() {
    let (mut orchestrator, _) = launch(false, None);
    assert_eq!(orchestrator.directive(), Directive::Poll(Source::Signal));
    assert_eq!(orchestrator.state().current_handle, None);

    assert_eq!(feed(&mut orchestrator, Event::Interrupt), vec![]);
    assert_eq!(orchestrator.state().shutdown_state, ShutdownState::ShuttingDown);
    assert_eq!(orchestrator.directive(), Directive::Poll(Source::Signal));

    assert_eq!(feed(&mut orchestrator, Event::Interrupt), vec![]);
    assert_eq!(orchestrator.state().shutdown_state, ShutdownState::Terminated);
    assert_eq!(orchestrator.directive(), Directive::Exit(Termination::Forced));
}

#[test]
fn connect_failure_is_fatal_without_retry() {
    let (mut orchestrator, _) = launch(true, None);
    feed(&mut orchestrator, Event::Credentials("C1"));
    assert_eq!(feed(&mut orchestrator, Event::ConnectFailed), vec![]);
    assert_eq!(orchestrator.directive(), Directive::Abort(Fatal::ConnectionFailed));
    // No retry: nothing is accepted any more and nothing is emitted.
    assert_eq!(
        orchestrator.step(Event::NotReady(Source::Connect)),
        Err::<Vec<Act>, Ev>(Event::NotReady(Source::Connect))
    );
    assert_eq!(orchestrator.wake(), Directive::Abort(Fatal::ConnectionFailed));
    assert_eq!(orchestrator.state().pending_connect, Some(0));
}

#[test]
fn launch_without_credentials_is_the_initial_state() {
    let (orchestrator, actions) = launch(true, None);
    assert_eq!(actions, vec![]);
    assert_eq!(
        orchestrator.state(),
        Lifecycle {
            discovery: true,
            pending_connect: None,
            current_handle: None,
            current_task: None,
            shutdown_state: ShutdownState::Running,
            directive: Directive::Poll(Source::Discovery),
            progress: false,
            next_attempt: 0,
        }
    );
    let (orchestrator, _) = launch(false, None);
    assert_eq!(orchestrator.directive(), Directive::Poll(Source::Signal));
    assert!(!orchestrator.state().discovery);
}

#[test]
fn launch_with_credentials_starts_a_connect_attempt() {
    let (orchestrator, actions) = launch(false, Some("stored"));
    assert_eq!(actions, vec![Action::StartConnect { attempt: 0, credentials: "stored" }]);
    assert_eq!(
        orchestrator.state(),
        Lifecycle {
            discovery: false,
            pending_connect: Some(0),
            current_handle: None,
            current_task: None,
            shutdown_state: ShutdownState::Running,
            directive: Directive::Poll(Source::Connect),
            progress: false,
            next_attempt: 1,
        }
    );
    let (orchestrator, _) = launch(true, Some("stored"));
    assert_eq!(orchestrator.directive(), Directive::Poll(Source::Discovery));
}

#[test]
fn a_pass_visits_the_sources_in_order() {
    let mut orchestrator = with_active_pair();
    let mut visited = Vec::new();
    for _ in 0..3 {
        match orchestrator.directive() {
            Directive::Poll(source) => {
                visited.push(source);
                feed(&mut orchestrator, Event::NotReady(source));
            }
            other => panic!("unexpected {:?}", other),
        }
    }
    // No connect attempt is in flight, so the connect slot is passed over.
    assert_eq!(visited, vec![Source::Discovery, Source::Signal, Source::Task]);
}

#[test]
fn a_pass_without_progress_suspends() {
    let mut orchestrator = with_active_pair();
    // `with_active_pair` ends at the start of a pass that follows progress.
    idle_until(&mut orchestrator, Directive::Suspend);
    assert!(!orchestrator.state().progress);
    // While suspended nothing is accepted.
    assert_eq!(
        orchestrator.step(Event::Interrupt),
        Err::<Vec<Act>, Ev>(Event::Interrupt)
    );
    assert_eq!(orchestrator.directive(), Directive::Suspend);
    // A wake-up starts a fresh pass.
    assert_eq!(orchestrator.wake(), Directive::Poll(Source::Discovery));
    assert_eq!(orchestrator.directive(), Directive::Poll(Source::Discovery));
}

#[test]
fn a_pass_with_progress_is_followed_by_another() {
    let (mut orchestrator, _) = launch(false, None);
    assert_eq!(feed(&mut orchestrator, Event::Interrupt), vec![]);
    // The interrupt was progress: a second pass begins, and only that one,
    // which makes none, suspends.
    assert_eq!(orchestrator.directive(), Directive::Poll(Source::Signal));
    assert!(!orchestrator.state().progress);
    assert_eq!(feed(&mut orchestrator, Event::NotReady(Source::Signal)), vec![]);
    assert_eq!(orchestrator.directive(), Directive::Suspend);
}

#[test]
fn wake_leaves_a_running_pass_alone() {
    let (mut orchestrator, _) = launch(true, Some("C1"));
    feed(&mut orchestrator, Event::NotReady(Source::Discovery));
    let before = orchestrator.state();
    assert_eq!(orchestrator.wake(), Directive::Poll(Source::Connect));
    assert_eq!(orchestrator.state(), before);
}

#[test]
fn an_event_out_of_turn_is_handed_back() {
    let (mut orchestrator, _) = launch(true, None);
    let before = orchestrator.state();
    assert_eq!(orchestrator.step(Event::Connected(5)), Err::<Vec<Act>, Ev>(Event::Connected(5)));
    assert_eq!(orchestrator.step(Event::TaskCompleted), Err::<Vec<Act>, Ev>(Event::TaskCompleted));
    assert_eq!(
        orchestrator.step(Event::NotReady(Source::Signal)),
        Err::<Vec<Act>, Ev>(Event::NotReady(Source::Signal))
    );
    assert_eq!(orchestrator.state(), before);
}

#[test]
fn credentials_replace_a_pending_connect() {
    let (mut orchestrator, _) = launch(true, Some("C1"));
    assert_eq!(
        feed(&mut orchestrator, Event::Credentials("C2")),
        vec![
            Action::CancelConnect { attempt: 0 },
            Action::StartConnect { attempt: 1, credentials: "C2" },
        ]
    );
    assert_eq!(orchestrator.state().pending_connect, Some(1));
    assert_eq!(orchestrator.state().next_attempt, 2);
}

#[test]
fn first_interrupt_requests_exactly_one_shutdown() {
    let mut orchestrator = with_active_pair();
    idle_until(&mut orchestrator, Directive::Poll(Source::Signal));
    let actions = feed(&mut orchestrator, Event::Interrupt);
    assert_eq!(actions, vec![Action::RequestShutdown { pair: 0 }]);
    assert_eq!(orchestrator.state().shutdown_state, ShutdownState::ShuttingDown);
    assert_eq!(orchestrator.state().current_handle, Some(0));
}

#[test]
fn second_interrupt_ends_without_polling_the_task() {
    let mut orchestrator = with_active_pair();
    idle_until(&mut orchestrator, Directive::Poll(Source::Signal));
    feed(&mut orchestrator, Event::Interrupt);
    idle_until(&mut orchestrator, Directive::Poll(Source::Signal));
    assert_eq!(feed(&mut orchestrator, Event::Interrupt), vec![]);
    assert_eq!(orchestrator.directive(), Directive::Exit(Termination::Forced));
    assert_eq!(orchestrator.state().current_task, Some(0));
    assert_eq!(orchestrator.step(Event::TaskCompleted), Err::<Vec<Act>, Ev>(Event::TaskCompleted));
    assert_eq!(orchestrator.wake(), Directive::Exit(Termination::Forced));
}

#[test]
fn task_completion_while_running_is_fatal() {
    let mut orchestrator = with_active_pair();
    idle_until(&mut orchestrator, Directive::Poll(Source::Task));
    assert_eq!(feed(&mut orchestrator, Event::TaskCompleted), vec![]);
    assert_eq!(orchestrator.directive(), Directive::Abort(Fatal::UnexpectedTermination));
    assert_eq!(orchestrator.state().shutdown_state, ShutdownState::Running);
}

#[test]
fn credentials_during_shutdown_still_swap() {
    let mut orchestrator = with_active_pair();
    idle_until(&mut orchestrator, Directive::Poll(Source::Signal));
    feed(&mut orchestrator, Event::Interrupt);
    idle_until(&mut orchestrator, Directive::Poll(Source::Discovery));
    assert_eq!(
        feed(&mut orchestrator, Event::Credentials("C2")),
        vec![
            Action::RequestShutdown { pair: 0 },
            Action::StartConnect { attempt: 1, credentials: "C2" },
            Action::DiscardHandle { pair: 0 },
            Action::DetachTask { pair: 0 },
        ]
    );
    assert_eq!(orchestrator.state().shutdown_state, ShutdownState::ShuttingDown);
}

#[test]
fn the_driver_never_needs_a_second_slot() {
    // Replays a long mixed run against a driver with one slot of each kind.
    let (mut orchestrator, actions) = launch(true, Some("C0"));
    let mut connect: Option<u64> = None;
    let mut handle: Option<u64> = None;
    let mut task: Option<u64> = None;
    let mut detached: Vec<u64> = Vec::new();
    let mut pending: Vec<Act> = actions;
    let mut round: u32 = 0;
    loop {
        for action in pending.drain(..) {
            match action {
                Action::RequestShutdown { pair } => assert_eq!(handle, Some(pair)),
                Action::CancelConnect { attempt } => {
                    assert_eq!(connect.take(), Some(attempt));
                }
                Action::StartConnect { attempt, .. } => {
                    assert_eq!(connect.replace(attempt), None);
                }
                Action::DiscardHandle { pair } => assert_eq!(handle.take(), Some(pair)),
                Action::DetachTask { pair } => {
                    assert_eq!(task.take(), Some(pair));
                    detached.push(pair);
                }
                Action::SpawnControl { pair, .. } => {
                    assert_eq!(connect.take(), Some(pair));
                    assert_eq!(handle.replace(pair), None);
                    assert_eq!(task.replace(pair), None);
                }
            }
        }
        let state = orchestrator.state();
        assert_eq!(state.pending_connect, connect);
        assert_eq!(state.current_handle, handle);
        assert_eq!(state.current_task, task);
        if round == 40 {
            break;
        }
        round += 1;
        let event: Ev = match orchestrator.directive() {
            Directive::Poll(Source::Discovery) if round % 3 == 0 => Event::Credentials("next"),
            Directive::Poll(Source::Connect) if round % 2 == 0 => Event::Connected(round),
            Directive::Poll(source) => Event::NotReady(source),
            Directive::Suspend => {
                orchestrator.wake();
                continue;
            }
            other => panic!("unexpected {:?}", other),
        };
        pending = feed(&mut orchestrator, event);
    }
    assert!(!detached.is_empty());
}

#[test]
fn the_shutdown_state_never_goes_back() {
    fn rank(state: ShutdownState) -> u8 {
        match state {
            ShutdownState::Running => 0,
            ShutdownState::ShuttingDown => 1,
            ShutdownState::Terminated => 2,
        }
    }
    let mut orchestrator = with_active_pair();
    let script: Vec<Ev> = vec![
        Event::NotReady(Source::Discovery),
        Event::Interrupt,
        Event::NotReady(Source::Task),
        Event::Credentials("C2"),
        Event::Connected(5),
        Event::NotReady(Source::Signal),
        Event::NotReady(Source::Task),
        Event::NotReady(Source::Discovery),
        Event::Interrupt,
        Event::Interrupt,
        Event::Credentials("C3"),
    ];
    let mut seen = rank(orchestrator.state().shutdown_state);
    for event in script {
        let _ = orchestrator.step(event);
        let now = rank(orchestrator.state().shutdown_state);
        assert!(seen <= now);
        seen = now;
    }
    assert_eq!(orchestrator.state().shutdown_state, ShutdownState::Terminated);
    assert_eq!(orchestrator.directive(), Directive::Exit(Termination::Forced));
}
