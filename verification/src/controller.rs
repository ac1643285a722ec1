//! The per-module controller lifecycle and its command handling.
//!
//! A controller is `Running` while its receive channel is open, enters
//! `Draining` exactly when the channel closes — never of its own accord —
//! and is `Terminated` once its in-flight work is done. While running it
//! interprets each received event under the command protocol and answers
//! with the action the driving task must perform; an invalid command is
//! reported and changes nothing.

use crate::command::{command_of, interpret, Command, CommandView, ExecEvent};
use crate::events::ModuleUpdateEvent;
use vstd::prelude::*;

verus! {

/// The three lifecycle states of a controller task.
#[derive(Debug, Clone, Copy, PartialEq, Eq, Structural)]
pub enum ControllerState {
    Running,
    Draining,
    Terminated,
}

/// A command a controller could not act on: reported, never fatal.
#[derive(Debug, Clone)]
pub enum CommandError {
    Unrecognized { command: String },
    EmptyProgram { command: String },
}

/// What the task driving a controller must do in reaction to one event.
#[derive(Debug)]
pub enum ControllerAction {
    /// Launch an external program, without blocking further receives.
    Launch { program: String, args: Vec<String> },
    /// Hand a popup directive on to the UI side, carrying the module id.
    Notify(ModuleUpdateEvent<()>),
    /// Report an invalid command and carry on.
    Report(CommandError),
}

/// The controller owned by one module instance.
#[derive(Debug)]
pub struct Controller {
    pub id: usize,
    pub state: ControllerState,
}

/// The argument list an event supplies, with a missing list reading as
/// an empty one.
pub open spec fn event_args(ev: ExecEvent) -> Seq<Seq<char>> {
    match ev.args {
        Some(v) => v.deep_view(),
        None => Seq::empty(),
    }
}

/// Whether `a` is the action the command protocol prescribes for `ev`.
pub open spec fn action_for(ev: ExecEvent, a: ControllerAction) -> bool {
    match command_of(ev.cmd@, event_args(ev)) {
        CommandView::Execute { program, args } => a matches ControllerAction::Launch {
            program: p,
            args: ar,
        } && p@ == program && ar.deep_view() == args,
        CommandView::TogglePopup => a == ControllerAction::Notify(
            ModuleUpdateEvent::TogglePopup(ev.id),
        ),
        CommandView::OpenPopup => a == ControllerAction::Notify(
            ModuleUpdateEvent::OpenPopup(ev.id),
        ),
        CommandView::ClosePopup => a == ControllerAction::Notify(
            ModuleUpdateEvent::<()>::ClosePopup,
        ),
        CommandView::Invalid { command } => {
            if ev.cmd@.len() > 0 && ev.cmd@[0] == '!' {
                a matches ControllerAction::Report(CommandError::EmptyProgram { command: c })
                    && c@ == command
            } else {
                a matches ControllerAction::Report(CommandError::Unrecognized { command: c })
                    && c@ == command
            }
        },
    }
}

impl Controller {
    /// A freshly spawned controller for the module `id`, running.
    pub fn new(id: usize) -> (r: Controller)
        ensures
            r.id == id,
            r.state == ControllerState::Running,
    {
        Controller { id, state: ControllerState::Running }
    }

    /// Reacts to one received event. The controller stays `Running`
    /// whatever the event holds: an invalid command is reported, never
    /// fatal, and termination comes only from channel closure.
    pub fn handle_exec_event(&mut self, ev: &ExecEvent) -> (a: ControllerAction)
        requires
            old(self).state == ControllerState::Running,
        ensures
            final(self).state == ControllerState::Running,
            final(self).id == old(self).id,
            action_for(*ev, a),
    {
        let c = match &ev.args {
            Some(v) => interpret(ev.cmd.as_str(), v),
            None => {
                let empty: Vec<String> = Vec::new();
                proof {
                    assert(empty.deep_view() =~~= Seq::<Seq<char>>::empty());
                }
                interpret(ev.cmd.as_str(), &empty)
            },
        };
        match c {
            Command::Execute { program, args } => ControllerAction::Launch { program, args },
            Command::TogglePopup => ControllerAction::Notify(
                ModuleUpdateEvent::TogglePopup(ev.id),
            ),
            Command::OpenPopup => ControllerAction::Notify(ModuleUpdateEvent::OpenPopup(ev.id)),
            Command::ClosePopup => ControllerAction::Notify(ModuleUpdateEvent::ClosePopup),
            Command::Invalid { command } => {
                let n = command.as_str().unicode_len();
                if n > 0 && command.as_str().get_char(0) == '!' {
                    ControllerAction::Report(CommandError::EmptyProgram { command })
                } else {
                    ControllerAction::Report(CommandError::Unrecognized { command })
                }
            },
        }
    }

    /// The receive channel has closed: the controller leaves `Running`
    /// for `Draining`. This is the only exit from `Running`.
    pub fn channel_closed(&mut self)
        requires
            old(self).state == ControllerState::Running,
        ensures
            final(self).state == ControllerState::Draining,
            final(self).id == old(self).id,
    {
        self.state = ControllerState::Draining;
    }

    /// In-flight work is finished after channel closure: the controller
    /// terminates.
    pub fn drained(&mut self)
        requires
            old(self).state == ControllerState::Draining,
        ensures
            final(self).state == ControllerState::Terminated,
            final(self).id == old(self).id,
    {
        self.state = ControllerState::Terminated;
    }

    /// Drains up to `budget` pending events without blocking, answering
    /// each in receipt order. The controller leaves `Running` only if the
    /// channel turned out closed, and then only for `Draining`.
    pub fn poll(
        &mut self,
        rx: &mut tokio::sync::mpsc::Receiver<ExecEvent>,
        budget: usize,
    ) -> (actions: Vec<ControllerAction>)
        requires
            old(self).state == ControllerState::Running,
        ensures
            final(self).id == old(self).id,
            final(self).state == ControllerState::Running || final(self).state
                == ControllerState::Draining,
    {
        let mut actions: Vec<ControllerAction> = Vec::new();
        let mut k: usize = 0;
        while k < budget
            invariant
                self.id == old(self).id,
                self.state == ControllerState::Running,
                k <= budget,
            decreases budget - k,
        {
            match crate::channels::mpsc_try_recv(rx) {
                crate::channels::RecvAttempt::Received(ev) => {
                    let a = self.handle_exec_event(&ev);
                    actions.push(a);
                    k += 1;
                },
                crate::channels::RecvAttempt::Empty => {
                    return actions;
                },
                crate::channels::RecvAttempt::Disconnected => {
                    self.channel_closed();
                    return actions;
                },
            }
        }
        actions
    }
}

} // verus!
