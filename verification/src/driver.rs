//! A model of the driver: what it holds while it carries out actions.
//!
//! The orchestrator never touches a connect attempt, a handle or a task. It
//! tells the driver what to do with them. This module says what a driver
//! that does as it is told ends up holding, so that the laws can speak of
//! the live objects and not only of the orchestrator's own record.

use crate::lifecycle::{Action, Lifecycle};
use vstd::prelude::*;

verus! {

/// What a driver holds: one slot for a connect attempt, one for a control
/// handle, one for a control task. A task handed over by `DetachTask` runs on
/// its own and is no longer held.
pub struct Slots {
    /// The connect attempt that the driver polls.
    pub connect: Option<u64>,
    /// The handle that receives shutdown requests.
    pub handle: Option<u64>,
    /// The task that the driver polls.
    pub task: Option<u64>,
}

impl Slots {
    /// The slots as the orchestrator records them.
    pub open spec fn of(state: Lifecycle) -> Slots {
        Slots {
            connect: state.pending_connect,
            handle: state.current_handle,
            task: state.current_task,
        }
    }

    /// Whether the driver can carry out `action` without losing anything:
    /// what the action names is what the slot holds, and what the action
    /// brings finds its slot empty.
    pub open spec fn fits<C, S>(self, action: Action<C, S>) -> bool {
        match action {
            Action::RequestShutdown { pair } => self.handle == Some(pair),
            Action::CancelConnect { attempt } => self.connect == Some(attempt),
            Action::StartConnect { attempt, credentials } => self.connect is None,
            Action::DiscardHandle { pair } => self.handle == Some(pair),
            Action::DetachTask { pair } => self.task == Some(pair),
            Action::SpawnControl { pair, session } => {
                &&& self.connect == Some(pair)
                &&& self.handle is None
                &&& self.task is None
            },
        }
    }

    /// The slots after the driver has carried out `action`.
    pub open spec fn perform<C, S>(self, action: Action<C, S>) -> Slots {
        match action {
            Action::RequestShutdown { pair } => self,
            Action::CancelConnect { attempt } => Slots { connect: None, ..self },
            Action::StartConnect { attempt, credentials } => Slots {
                connect: Some(attempt),
                ..self
            },
            Action::DiscardHandle { pair } => Slots { handle: None, ..self },
            Action::DetachTask { pair } => Slots { task: None, ..self },
            Action::SpawnControl { pair, session } => Slots {
                connect: None,
                handle: Some(pair),
                task: Some(pair),
            },
        }
    }

    /// The slots after the driver has carried out `actions` in order.
    pub open spec fn perform_all<C, S>(self, actions: Seq<Action<C, S>>) -> Slots
        decreases actions.len(),
    {
        if actions.len() == 0 {
            self
        } else {
            self.perform_all(actions.drop_last()).perform(actions.last())
        }
    }

    /// Whether every one of `actions` fits the slots as they are when its
    /// turn comes.
    pub open spec fn orderly<C, S>(self, actions: Seq<Action<C, S>>) -> bool
        decreases actions.len(),
    {
        if actions.len() == 0 {
            true
        } else {
            &&& self.orderly(actions.drop_last())
            &&& self.perform_all(actions.drop_last()).fits(actions.last())
        }
    }
}

/// How the number of control handles in the driver's hands changes over
/// `actions`: each pair that is spawned brings one, each handle that is let
/// go takes one away.
pub open spec fn handles_gained<C, S>(actions: Seq<Action<C, S>>) -> int
    decreases actions.len(),
{
    if actions.len() == 0 {
        0
    } else {
        handles_gained(actions.drop_last()) + match actions.last() {
            Action::SpawnControl { pair, session } => 1int,
            Action::DiscardHandle { pair } => -1int,
            _ => 0int,
        }
    }
}

/// The number of control tasks that `actions` bring into being: one for
/// each pair that is spawned.
pub open spec fn tasks_spawned<C, S>(actions: Seq<Action<C, S>>) -> int
    decreases actions.len(),
{
    if actions.len() == 0 {
        0
    } else {
        tasks_spawned(actions.drop_last()) + match actions.last() {
            Action::SpawnControl { pair, session } => 1int,
            _ => 0int,
        }
    }
}

/// The number of control tasks that `actions` detach.
pub open spec fn tasks_detached<C, S>(actions: Seq<Action<C, S>>) -> int
    decreases actions.len(),
{
    if actions.len() == 0 {
        0
    } else {
        tasks_detached(actions.drop_last()) + match actions.last() {
            Action::DetachTask { pair } => 1int,
            _ => 0int,
        }
    }
}

/// One if the slot is taken, zero if it is empty.
pub open spec fn held(slot: Option<u64>) -> int {
    if slot is Some {
        1
    } else {
        0
    }
}

} // verus!
