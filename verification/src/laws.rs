//! What holds of every lifecycle, proved from the model.

use crate::driver::{handles_gained, held, tasks_detached, tasks_spawned, Slots};
use crate::lifecycle::{
    Action, Directive, Event, Fatal, Input, Lifecycle, ShutdownState, Source, Termination,
};
use vstd::prelude::*;

verus! {

/// An orchestrator starts out well formed.
pub proof fn law_launch_is_well_formed(discovery: bool, with_credentials: bool)
    ensures
        Lifecycle::launched(discovery, with_credentials).wf(),
{
}

/// No input leads out of the well-formed states.
pub proof fn law_inputs_keep_well_formed<C, S>(state: Lifecycle, input: Input<C, S>)
    requires
        state.wf(),
    ensures
        state.on(input).wf(),
{
}

/// No sequence of inputs leads out of the well-formed states.
pub proof fn law_runs_keep_well_formed<C, S>(state: Lifecycle, inputs: Seq<Input<C, S>>)
    requires
        state.wf(),
    ensures
        state.run(inputs).wf(),
    decreases inputs.len(),
{
    if inputs.len() > 0 {
        law_runs_keep_well_formed(state, inputs.drop_last());
        law_inputs_keep_well_formed(state.run(inputs.drop_last()), inputs.last());
    }
}

/// The handle and the task that are current belong to one pair, and while a
/// connect attempt is in flight no pair is current.
pub proof fn law_one_pair_or_one_attempt<C, S>(state: Lifecycle, inputs: Seq<Input<C, S>>)
    requires
        state.wf(),
    ensures
        state.run(inputs).current_handle == state.run(inputs).current_task,
        state.run(inputs).pending_connect is Some ==> state.run(inputs).current_handle is None,
{
    law_runs_keep_well_formed(state, inputs);
}

/// A credential swap detaches the task that was current and never drops it:
/// when discovery delivers credentials while a task is current, exactly one
/// action detaches exactly that task, the handle of its pair receives a
/// shutdown request and is let go, a fresh connect attempt carries the new
/// credentials, and afterwards no pair is current.
pub proof fn law_swap_detaches_current_task<C, S>(state: Lifecycle, credentials: C, pair: u64)
    requires
        state.wf(),
        state.directive == Directive::Poll(Source::Discovery),
        state.current_task == Some(pair),
    ensures
        state.emits::<C, S>(Event::Credentials(credentials)) == seq![
            Action::<C, S>::RequestShutdown { pair },
            Action::StartConnect { attempt: state.next_attempt, credentials },
            Action::DiscardHandle { pair },
            Action::DetachTask { pair },
        ],
        state.after::<C, S>(Event::Credentials(credentials)).current_task is None,
        state.after::<C, S>(Event::Credentials(credentials)).current_handle is None,
        state.after::<C, S>(Event::Credentials(credentials)).pending_connect == Some(
            state.next_attempt,
        ),
        state.after::<C, S>(Event::Credentials(credentials)).directive == Directive::Poll(
            Source::Connect,
        ),
{
}

/// A credential swap without a current pair cancels the connect attempt in
/// flight, if there is one, and begins a fresh one. Nothing else happens.
pub proof fn law_swap_replaces_pending_connect<C, S>(state: Lifecycle, credentials: C)
    requires
        state.wf(),
        state.directive == Directive::Poll(Source::Discovery),
        state.current_task is None,
    ensures
        state.emits::<C, S>(Event::Credentials(credentials)) == match state.pending_connect {
            Some(attempt) => seq![
                Action::<C, S>::CancelConnect { attempt },
                Action::StartConnect { attempt: state.next_attempt, credentials },
            ],
            None => seq![
                Action::<C, S>::StartConnect { attempt: state.next_attempt, credentials },
            ],
        },
        state.after::<C, S>(Event::Credentials(credentials)).pending_connect == Some(
            state.next_attempt,
        ),
{
}

/// The first interrupt is graceful: the shutdown state moves from `Running`
/// to `ShuttingDown`, and the current handle, if there is one, receives
/// exactly one shutdown request. Nothing else is emitted, and the current
/// pair stays current.
pub proof fn law_first_interrupt_is_graceful<C, S>(state: Lifecycle)
    requires
        state.wf(),
        state.directive == Directive::Poll(Source::Signal),
        state.shutdown_state == ShutdownState::Running,
    ensures
        state.after::<C, S>(Event::Interrupt).shutdown_state == ShutdownState::ShuttingDown,
        state.emits::<C, S>(Event::Interrupt) == match state.current_handle {
            Some(pair) => seq![Action::<C, S>::RequestShutdown { pair }],
            None => Seq::<Action<C, S>>::empty(),
        },
        state.after::<C, S>(Event::Interrupt).current_handle == state.current_handle,
        state.after::<C, S>(Event::Interrupt).current_task == state.current_task,
        !(state.after::<C, S>(Event::Interrupt).directive is Exit),
        !(state.after::<C, S>(Event::Interrupt).directive is Abort),
{
}

/// The second interrupt is forced: the shutdown state moves from
/// `ShuttingDown` to `Terminated` and the lifecycle ends at once, whatever
/// the current task is doing. Nothing is emitted.
pub proof fn law_second_interrupt_is_forced<C, S>(state: Lifecycle)
    requires
        state.wf(),
        state.directive == Directive::Poll(Source::Signal),
        state.shutdown_state == ShutdownState::ShuttingDown,
    ensures
        state.after::<C, S>(Event::Interrupt).shutdown_state == ShutdownState::Terminated,
        state.after::<C, S>(Event::Interrupt).directive == Directive::Exit(Termination::Forced),
        state.emits::<C, S>(Event::Interrupt) == Seq::<Action<C, S>>::empty(),
{
}

/// A lifecycle that has ended stays as it is: after an exit or an abort no
/// input changes the state or emits an action. In particular the current
/// task is never polled again.
pub proof fn law_the_end_is_final<C, S>(state: Lifecycle, inputs: Seq<Input<C, S>>)
    requires
        state.directive is Exit || state.directive is Abort,
    ensures
        state.run(inputs) == state,
        state.trace(inputs) == Seq::<Action<C, S>>::empty(),
    decreases inputs.len(),
{
    if inputs.len() > 0 {
        law_the_end_is_final(state, inputs.drop_last());
    }
}

/// A control task that completes while the shutdown state is `Running` is a
/// fatal condition, never a success: the directive becomes an abort, and no
/// later input turns it into an exit.
pub proof fn law_unexpected_completion_is_fatal<C, S>(state: Lifecycle, later: Seq<Input<C, S>>)
    requires
        state.wf(),
        state.directive == Directive::Poll(Source::Task),
        state.shutdown_state == ShutdownState::Running,
    ensures
        state.after::<C, S>(Event::TaskCompleted).directive == Directive::Abort(
            Fatal::UnexpectedTermination,
        ),
        state.after::<C, S>(Event::TaskCompleted).shutdown_state == ShutdownState::Running,
        state.after::<C, S>(Event::TaskCompleted).run(later).directive == Directive::Abort(
            Fatal::UnexpectedTermination,
        ),
{
    law_the_end_is_final(state.after::<C, S>(Event::TaskCompleted), later);
}

/// A control task that completes after a shutdown was requested ends the
/// lifecycle gracefully.
pub proof fn law_completion_after_shutdown_is_graceful<C, S>(state: Lifecycle)
    requires
        state.wf(),
        state.directive == Directive::Poll(Source::Task),
        state.shutdown_state == ShutdownState::ShuttingDown,
    ensures
        state.after::<C, S>(Event::TaskCompleted).directive == Directive::Exit(
            Termination::Graceful,
        ),
        state.after::<C, S>(Event::TaskCompleted).shutdown_state == ShutdownState::Terminated,
        state.emits::<C, S>(Event::TaskCompleted) == Seq::<Action<C, S>>::empty(),
{
}

/// A failed connect attempt is fatal in every shutdown state, and no retry
/// is made: nothing is emitted.
pub proof fn law_connect_failure_is_fatal<C, S>(state: Lifecycle)
    requires
        state.wf(),
        state.directive == Directive::Poll(Source::Connect),
    ensures
        state.after::<C, S>(Event::ConnectFailed).directive == Directive::Abort(
            Fatal::ConnectionFailed,
        ),
        state.emits::<C, S>(Event::ConnectFailed) == Seq::<Action<C, S>>::empty(),
{
}

/// The shutdown state never goes back, input by input.
pub proof fn law_shutdown_state_advances<C, S>(state: Lifecycle, input: Input<C, S>)
    ensures
        state.shutdown_state.rank() <= state.on(input).shutdown_state.rank(),
{
}

/// The shutdown state never goes back over any sequence of inputs, and once
/// it is `Terminated` the lifecycle has ended.
pub proof fn law_shutdown_state_is_monotonic<C, S>(state: Lifecycle, inputs: Seq<Input<C, S>>)
    requires
        state.wf(),
    ensures
        state.shutdown_state.rank() <= state.run(inputs).shutdown_state.rank(),
        state.run(inputs).shutdown_state == ShutdownState::Terminated
            <==> state.run(inputs).directive is Exit,
    decreases inputs.len(),
{
    law_runs_keep_well_formed(state, inputs);
    if inputs.len() > 0 {
        law_shutdown_state_is_monotonic(state, inputs.drop_last());
        law_shutdown_state_advances(state.run(inputs.drop_last()), inputs.last());
    }
}

/// The lifecycle ends in two ways only: by a second interrupt, or by the
/// completion of the current task after a shutdown was requested.
pub proof fn law_two_ways_to_exit<C, S>(state: Lifecycle, input: Input<C, S>)
    requires
        state.wf(),
        !(state.directive is Exit),
        state.on(input).directive is Exit,
    ensures
        state.shutdown_state == ShutdownState::ShuttingDown,
        input == Input::Poll(Event::<C, S>::Interrupt) || input == Input::Poll(
            Event::<C, S>::TaskCompleted,
        ),
        input == Input::Poll(Event::<C, S>::Interrupt) ==> state.on(input).directive
            == Directive::Exit(Termination::Forced),
        input == Input::Poll(Event::<C, S>::TaskCompleted) ==> state.on(input).directive
            == Directive::Exit(Termination::Graceful),
{
}

/// Within a pass the sources are visited in order. After an event that does
/// not end the lifecycle, the driver is sent to a source that comes later in
/// the pass, or the pass is over. A pass that is over is followed by a fresh
/// pass if it made progress, and by suspension if it made none.
pub proof fn law_pass_order<C, S>(state: Lifecycle, event: Event<C, S>)
    requires
        state.wf(),
        state.accepts(event),
    ensures
        match state.after(event).directive {
            Directive::Poll(next) => event.spec_source().position() < next.position() || (
            state.after(event).progress == false && Directive::Poll(next) == state.after(
                event,
            ).first_of_pass() && (state.progress || !(event is NotReady))),
            Directive::Suspend => event is NotReady && !state.progress,
            Directive::Exit(_) => event is Interrupt || event is TaskCompleted,
            Directive::Abort(_) => event is ConnectFailed || event is TaskCompleted,
        },
{
}

/// A pass leaves out no source that has something to poll. When the driver
/// is sent on to a later source of the same pass, the sources in between
/// have no subject; when the pass is over, none of the sources that would
/// have followed has one; and a fresh pass begins at the first source that
/// has one.
pub proof fn law_no_source_is_passed_over<C, S>(
    state: Lifecycle,
    event: Event<C, S>,
    skipped: Source,
)
    requires
        state.wf(),
        state.accepts(event),
        state.after(event).has_subject(skipped),
    ensures
        match state.after(event).directive {
            Directive::Poll(next) => if event.spec_source().position() < next.position() {
                !(event.spec_source().position() < skipped.position() < next.position())
            } else {
                skipped.position() <= event.spec_source().position() && next.position()
                    <= skipped.position()
            },
            Directive::Suspend => skipped.position() <= event.spec_source().position(),
            _ => true,
        },
        state.after(event).directive matches Directive::Poll(next) ==> state.after(
            event,
        ).has_subject(next),
{
}

/// Progress is what an event other than "not ready" makes. Within a pass the
/// mark is kept; a pass that ends marked is followed by a fresh pass that
/// starts unmarked, and only a pass that ends unmarked suspends.
pub proof fn law_progress_is_marked<C, S>(state: Lifecycle, event: Event<C, S>)
    requires
        state.wf(),
        state.accepts(event),
        !(state.after(event).directive is Exit),
        !(state.after(event).directive is Abort),
    ensures
        state.after(event).directive matches Directive::Poll(next) && event.spec_source().position()
            < next.position() ==> state.after(event).progress == (state.progress || !(event
            is NotReady)),
        state.after(event).directive matches Directive::Poll(next) && next.position()
            <= event.spec_source().position() ==> (state.progress || !(event is NotReady))
            && !state.after(event).progress,
        state.after(event).directive == Directive::Suspend <==> {
            &&& !state.progress
            &&& event is NotReady
            &&& forall|later: Source| event.spec_source().position() < later.position()
                    ==> !state.has_subject(later)
        },
{
    if state.after(event).directive != Directive::Suspend && !state.progress && event
        is NotReady {
        // The pass goes on, so the source that comes next is one with a subject.
        let next = state.after(event).directive->Poll_0;
        assert(state.has_subject(next));
    }
}

/// The driver is never sent to a source that has nothing to poll: discovery
/// is polled only where a listener exists, a connect attempt only while one
/// is in flight, a task only while one is current.
pub proof fn law_polls_have_a_subject<C, S>(state: Lifecycle, inputs: Seq<Input<C, S>>)
    requires
        state.wf(),
    ensures
        state.run(inputs).discovery == state.discovery,
        state.run(inputs).directive == Directive::Poll(Source::Discovery) ==> state.discovery,
        state.run(inputs).directive == Directive::Poll(Source::Connect) ==> state.run(
            inputs,
        ).pending_connect is Some,
        state.run(inputs).directive == Directive::Poll(Source::Task) ==> state.run(
            inputs,
        ).current_task is Some,
    decreases inputs.len(),
{
    law_runs_keep_well_formed(state, inputs);
    if inputs.len() > 0 {
        law_polls_have_a_subject(state, inputs.drop_last());
    }
}

proof fn lemma_perform_push<C, S>(slots: Slots, actions: Seq<Action<C, S>>, action: Action<C, S>)
    ensures
        slots.perform_all(actions.push(action)) == slots.perform_all(actions).perform(action),
        slots.orderly(actions.push(action)) == (slots.orderly(actions) && slots.perform_all(
            actions,
        ).fits(action)),
{
    assert(actions.push(action).drop_last() =~= actions);
}

proof fn lemma_perform_concat<C, S>(
    slots: Slots,
    first: Seq<Action<C, S>>,
    second: Seq<Action<C, S>>,
)
    ensures
        slots.perform_all(first + second) == slots.perform_all(first).perform_all(second),
        slots.orderly(first + second) == (slots.orderly(first) && slots.perform_all(
            first,
        ).orderly(second)),
    decreases second.len(),
{
    if second.len() == 0 {
        assert(first + second =~= first);
    } else {
        lemma_perform_concat(slots, first, second.drop_last());
        assert(first + second =~= (first + second.drop_last()).push(second.last()));
        lemma_perform_push(slots, first + second.drop_last(), second.last());
    }
}

proof fn lemma_perform_none<C, S>(slots: Slots)
    ensures
        slots.perform_all(Seq::<Action<C, S>>::empty()) == slots,
        slots.orderly(Seq::<Action<C, S>>::empty()),
{
}

proof fn lemma_perform_one<C, S>(slots: Slots, action: Action<C, S>)
    ensures
        slots.perform_all(seq![action]) == slots.perform(action),
        slots.orderly(seq![action]) == slots.fits(action),
{
    lemma_perform_push(slots, Seq::empty(), action);
    assert(seq![action] =~= Seq::empty().push(action));
}

proof fn lemma_shutdown_request_fits<C, S>(state: Lifecycle)
    ensures
        Slots::of(state).orderly(state.shutdown_request::<C, S>()),
        Slots::of(state).perform_all(state.shutdown_request::<C, S>()) == Slots::of(state),
{
    match state.current_handle {
        Some(pair) => {
            lemma_perform_one(Slots::of(state), Action::<C, S>::RequestShutdown { pair });
        },
        None => {
            lemma_perform_none::<C, S>(Slots::of(state));
        },
    }
}

proof fn lemma_swap_fits<C, S>(state: Lifecycle, credentials: C)
    ensures
        Slots::of(state).orderly(state.swap_actions::<C, S>(credentials)),
        Slots::of(state).perform_all(state.swap_actions::<C, S>(credentials)) == Slots::of(
            state.swapped(),
        ),
{
    let slots = Slots::of(state);
    let cancel: Seq<Action<C, S>> = match state.pending_connect {
        Some(attempt) => seq![Action::CancelConnect { attempt }],
        None => seq![],
    };
    let start: Seq<Action<C, S>> = seq![
        Action::StartConnect { attempt: state.next_attempt, credentials },
    ];
    let discard: Seq<Action<C, S>> = match state.current_handle {
        Some(pair) => seq![Action::DiscardHandle { pair }],
        None => seq![],
    };
    let detach: Seq<Action<C, S>> = match state.current_task {
        Some(pair) => seq![Action::DetachTask { pair }],
        None => seq![],
    };
    assert(state.swap_actions::<C, S>(credentials) == cancel + start + discard + detach);
    match state.pending_connect {
        Some(attempt) => {
            lemma_perform_one(slots, Action::<C, S>::CancelConnect { attempt });
        },
        None => {
            lemma_perform_none::<C, S>(slots);
        },
    }
    let cancelled = slots.perform_all(cancel);
    assert(cancelled == Slots { connect: None, ..slots });
    lemma_perform_one(
        cancelled,
        Action::<C, S>::StartConnect { attempt: state.next_attempt, credentials },
    );
    lemma_perform_concat(slots, cancel, start);
    let started = slots.perform_all(cancel + start);
    assert(started == Slots { connect: Some(state.next_attempt), ..slots });
    match state.current_handle {
        Some(pair) => {
            lemma_perform_one(started, Action::<C, S>::DiscardHandle { pair });
        },
        None => {
            lemma_perform_none::<C, S>(started);
        },
    }
    lemma_perform_concat(slots, cancel + start, discard);
    let discarded = slots.perform_all(cancel + start + discard);
    assert(discarded == Slots { handle: None, ..started });
    match state.current_task {
        Some(pair) => {
            lemma_perform_one(discarded, Action::<C, S>::DetachTask { pair });
        },
        None => {
            lemma_perform_none::<C, S>(discarded);
        },
    }
    lemma_perform_concat(slots, cancel + start + discard, detach);
}

/// One input at a time, the driver can do as it is told and ends up holding
/// what the orchestrator records: every emitted action fits the slots, and
/// the slots afterwards are those of the state that follows.
pub proof fn law_actions_fit_the_slots<C, S>(state: Lifecycle, input: Input<C, S>)
    requires
        state.wf(),
    ensures
        Slots::of(state).orderly(state.actions_on(input)),
        Slots::of(state).perform_all(state.actions_on(input)) == Slots::of(state.on(input)),
{
    let slots = Slots::of(state);
    match input {
        Input::Wake => {
            lemma_perform_none::<C, S>(slots);
        },
        Input::Poll(event) => {
            if !state.accepts(event) {
                lemma_perform_none::<C, S>(slots);
            } else {
                match event {
                    Event::Credentials(credentials) => {
                        lemma_shutdown_request_fits::<C, S>(state);
                        lemma_swap_fits::<C, S>(state, credentials);
                        lemma_perform_concat(
                            slots,
                            state.shutdown_request::<C, S>(),
                            state.swap_actions::<C, S>(credentials),
                        );
                    },
                    Event::Connected(session) => {
                        let pair = state.pending_connect->0;
                        lemma_perform_one(slots, Action::<C, S>::SpawnControl { pair, session });
                    },
                    Event::Interrupt => {
                        lemma_shutdown_request_fits::<C, S>(state);
                        lemma_perform_none::<C, S>(slots);
                    },
                    _ => {
                        lemma_perform_none::<C, S>(slots);
                    },
                }
            }
        },
    }
}

/// One slot of each kind is enough, whatever happens. Over any sequence of
/// inputs every action fits the slots as the driver finds them: a connect
/// attempt begins only when none is held, a control pair is spawned only
/// when neither a handle nor a task is held, a shutdown request goes only to
/// the handle that is held, and a task leaves its slot only by being
/// detached. So at no instant is there more than one connect attempt, more
/// than one current handle or more than one current task, and no task is
/// dropped. In the end the driver holds exactly what the orchestrator records
/// as pending and current.
pub proof fn law_one_slot_of_each_kind<C, S>(state: Lifecycle, inputs: Seq<Input<C, S>>)
    requires
        state.wf(),
    ensures
        Slots::of(state).orderly(state.trace(inputs)),
        Slots::of(state).perform_all(state.trace(inputs)) == Slots::of(state.run(inputs)),
    decreases inputs.len(),
{
    if inputs.len() == 0 {
        lemma_perform_none::<C, S>(Slots::of(state));
    } else {
        let before = inputs.drop_last();
        law_one_slot_of_each_kind(state, before);
        law_runs_keep_well_formed(state, before);
        law_actions_fit_the_slots(state.run(before), inputs.last());
        lemma_perform_concat(
            Slots::of(state),
            state.trace(before),
            state.run(before).actions_on(inputs.last()),
        );
    }
}

/// Orderliness holds at every instant, not only between inputs: whatever
/// part of the actions the driver has carried out so far, the next one fits.
pub proof fn law_every_action_fits<C, S>(state: Lifecycle, inputs: Seq<Input<C, S>>, done: int)
    requires
        state.wf(),
        0 <= done < state.trace(inputs).len(),
    ensures
        Slots::of(state).perform_all(state.trace(inputs).take(done)).fits(
            state.trace(inputs)[done],
        ),
{
    law_one_slot_of_each_kind(state, inputs);
    let trace = state.trace(inputs);
    let head = trace.take(done + 1);
    let tail = trace.skip(done + 1);
    assert(trace =~= head + tail);
    lemma_perform_concat(Slots::of(state), head, tail);
    assert(head.drop_last() =~= trace.take(done));
}

proof fn lemma_counts_follow_the_slots<C, S>(slots: Slots, actions: Seq<Action<C, S>>)
    requires
        slots.orderly(actions),
    ensures
        held(slots.handle) + handles_gained(actions) == held(slots.perform_all(actions).handle),
        held(slots.task) + tasks_spawned(actions) - tasks_detached(actions) == held(
            slots.perform_all(actions).task,
        ),
    decreases actions.len(),
{
    if actions.len() > 0 {
        lemma_counts_follow_the_slots(slots, actions.drop_last());
    }
}

proof fn lemma_prefix_is_orderly<C, S>(slots: Slots, actions: Seq<Action<C, S>>, done: int)
    requires
        slots.orderly(actions),
        0 <= done <= actions.len(),
    ensures
        slots.orderly(actions.take(done)),
{
    assert(actions =~= actions.take(done) + actions.skip(done));
    lemma_perform_concat(slots, actions.take(done), actions.skip(done));
}

/// At most one control handle is current at any instant. Count the handles
/// that the actions carried out so far have brought and taken away: with the
/// one that may have been current at the start, there is never more than
/// one in the driver's hands, and never fewer than none.
pub proof fn law_at_most_one_current_handle<C, S>(
    state: Lifecycle,
    inputs: Seq<Input<C, S>>,
    done: int,
)
    requires
        state.wf(),
        0 <= done <= state.trace(inputs).len(),
    ensures
        0 <= held(state.current_handle) + handles_gained(state.trace(inputs).take(done)) <= 1,
{
    law_one_slot_of_each_kind(state, inputs);
    lemma_prefix_is_orderly(Slots::of(state), state.trace(inputs), done);
    lemma_counts_follow_the_slots(Slots::of(state), state.trace(inputs).take(done));
}

/// No control task is dropped. At any instant every task that was current at
/// the start or has been spawned since is either still current, and then it
/// is the only one, or has been detached to run to completion on its own.
pub proof fn law_no_task_is_dropped<C, S>(state: Lifecycle, inputs: Seq<Input<C, S>>, done: int)
    requires
        state.wf(),
        0 <= done <= state.trace(inputs).len(),
    ensures
        ({
            let so_far = state.trace(inputs).take(done);
            let current = held(state.current_task) + tasks_spawned(so_far) - tasks_detached(
                so_far,
            );
            0 <= current <= 1
        }),
        held(state.current_task) + tasks_spawned(state.trace(inputs)) == tasks_detached(
            state.trace(inputs),
        ) + held(state.run(inputs).current_task),
{
    law_one_slot_of_each_kind(state, inputs);
    lemma_prefix_is_orderly(Slots::of(state), state.trace(inputs), done);
    lemma_counts_follow_the_slots(Slots::of(state), state.trace(inputs).take(done));
    lemma_counts_follow_the_slots(Slots::of(state), state.trace(inputs));
}

/// A task that was detached is not asked about again: after a credential
/// swap no task is current, so the driver is not sent to poll one until
/// another pair has been spawned.
pub proof fn law_detached_task_is_not_polled<C, S>(
    state: Lifecycle,
    credentials: C,
    later: Seq<Input<C, S>>,
)
    requires
        state.wf(),
        state.directive == Directive::Poll(Source::Discovery),
        tasks_spawned(state.after::<C, S>(Event::Credentials(credentials)).trace(later)) == 0,
    ensures
        state.after::<C, S>(Event::Credentials(credentials)).run(later).current_task is None,
        state.after::<C, S>(Event::Credentials(credentials)).run(later).directive
            != Directive::Poll(Source::Task),
{
    let swapped = state.after::<C, S>(Event::Credentials(credentials));
    law_inputs_keep_well_formed(state, Input::Poll(Event::<C, S>::Credentials(credentials)));
    law_no_task_is_dropped(swapped, later, 0);
    law_runs_keep_well_formed(swapped, later);
    assert(tasks_detached(swapped.trace(later)) >= 0) by {
        lemma_detached_is_a_count(swapped.trace(later));
    }
}

proof fn lemma_detached_is_a_count<C, S>(actions: Seq<Action<C, S>>)
    ensures
        tasks_detached(actions) >= 0,
    decreases actions.len(),
{
    if actions.len() > 0 {
        lemma_detached_is_a_count(actions.drop_last());
    }
}

} // verus!
