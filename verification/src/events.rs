//! The messages that cross a module's channels, and their routing on the
//! UI side.
//!
//! A controller talks to the UI scheduler over a bounded queue of
//! `ModuleUpdateEvent`s; the scheduler routes popup directives into the
//! popup registry and fans updates out to the module's broadcast
//! subscribers. Sends from the UI thread are non-blocking, best-effort
//! attempts: overflow comes back as a reportable error carrying the
//! message, never as silence and never as a blocked scheduler.

use crate::channels::{broadcast_send, mpsc_try_recv, mpsc_try_send, RecvAttempt, SendAttempt};
use crate::command::ExecEvent;
use crate::popup::PopupRegistry;
use vstd::prelude::*;

verus! {

/// What a controller tells the UI side: an update for the module's
/// subscribers, or a popup directive carrying the module's id.
#[derive(Debug, Clone)]
pub enum ModuleUpdateEvent<S> {
    Update(S),
    TogglePopup(usize),
    OpenPopup(usize),
    ClosePopup,
}

/// A UI-side send that could not be queued; the event comes back with
/// the report, so overflow is never silent loss.
#[derive(Debug)]
pub enum ChannelError {
    Full { event: ExecEvent },
    Closed { event: ExecEvent },
}

/// Queues an event for a module's controller without ever blocking the
/// UI scheduler: a full or closed queue is reported back together with
/// the event itself.
pub fn send_exec_event(tx: &tokio::sync::mpsc::Sender<ExecEvent>, ev: ExecEvent) -> (r: Result<
    (),
    ChannelError,
>)
    ensures
        r matches Err(ChannelError::Full { event }) ==> event == ev,
        r matches Err(ChannelError::Closed { event }) ==> event == ev,
{
    match mpsc_try_send(tx, ev) {
        SendAttempt::Sent => Ok(()),
        SendAttempt::Full(event) => Err(ChannelError::Full { event }),
        SendAttempt::Closed(event) => Err(ChannelError::Closed { event }),
    }
}

/// Routes one controller event on the UI side: popup directives drive
/// the registry's state machine, an update is fanned out to however many
/// subscribers the module's broadcast channel has — zero being a no-op,
/// not an error. Returns the number of subscribers reached.
pub fn route_update_event<S: Clone>(
    ev: ModuleUpdateEvent<S>,
    popups: &mut PopupRegistry,
    update_tx: &tokio::sync::broadcast::Sender<S>,
) -> (subscribers: usize)
    requires
        old(popups).wf(),
    ensures
        final(popups).wf(),
        ev matches ModuleUpdateEvent::Update(_) ==> *final(popups) == *old(popups),
        ev matches ModuleUpdateEvent::TogglePopup(id) ==> *final(popups) == old(
            popups,
        ).spec_toggle(id),
        ev matches ModuleUpdateEvent::OpenPopup(id) ==> *final(popups) == old(popups).spec_open(
            id,
        ),
        ev matches ModuleUpdateEvent::ClosePopup ==> *final(popups) == old(popups).spec_close(),
{
    match ev {
        ModuleUpdateEvent::Update(s) => broadcast_send(update_tx, s),
        ModuleUpdateEvent::TogglePopup(id) => {
            popups.toggle(id);
            0
        },
        ModuleUpdateEvent::OpenPopup(id) => {
            popups.open(id);
            0
        },
        ModuleUpdateEvent::ClosePopup => {
            popups.close();
            0
        },
    }
}

/// Drains up to `budget` pending controller events and routes each in
/// receipt order, without blocking. Returns how many were routed.
pub fn pump_updates<S: Clone>(
    rx: &mut tokio::sync::mpsc::Receiver<ModuleUpdateEvent<S>>,
    popups: &mut PopupRegistry,
    update_tx: &tokio::sync::broadcast::Sender<S>,
    budget: usize,
) -> (routed: usize)
    requires
        old(popups).wf(),
    ensures
        final(popups).wf(),
        routed <= budget,
{
    let mut k: usize = 0;
    while k < budget
        invariant
            popups.wf(),
            k <= budget,
        decreases budget - k,
    {
        match mpsc_try_recv(rx) {
            RecvAttempt::Received(ev) => {
                route_update_event(ev, popups, update_tx);
                k += 1;
            },
            RecvAttempt::Empty => {
                return k;
            },
            RecvAttempt::Disconnected => {
                return k;
            },
        }
    }
    k
}

} // verus!
