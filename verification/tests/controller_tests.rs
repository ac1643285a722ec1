use barmods::command::ExecEvent;
use barmods::controller::{
    CommandError, Controller, ControllerAction, ControllerState,
};
use barmods::events::{
    route_update_event, send_exec_event, ChannelError, ModuleUpdateEvent,
};
use barmods::orientation::Orientation;
use barmods::popup::{PopupEntry, PopupRegistry};
use barmods::widgets::Container;

fn ev(cmd: &str, args: Option<&[&str]>, id: usize) -> ExecEvent {
    ExecEvent {
        cmd: String::from(cmd),
        args: args.map(|v| v.iter().map(|s| String::from(*s)).collect()),
        id,
    }
}

#[test]
fn invalid_command_is_reported_and_controller_keeps_running() {
    let mut c = Controller::new(3);
    let a = c.handle_exec_event(&ev("frobnicate", None, 3));
    match a {
        ControllerAction::Report(CommandError::Unrecognized { command }) => {
            assert_eq!(command, "frobnicate");
        }
        _ => panic!("expected a reported command error"),
    }
    assert_eq!(c.state, ControllerState::Running);
    // It still processes subsequent messages.
    let a = c.handle_exec_event(&ev("popup:open", None, 3));
    assert!(matches!(
        a,
        ControllerAction::Notify(ModuleUpdateEvent::OpenPopup(3))
    ));
    assert_eq!(c.state, ControllerState::Running);
}

#[test]
fn popup_directives_carry_the_event_id() {
    let mut c = Controller::new(9);
    assert!(matches!(
        c.handle_exec_event(&ev("popup:toggle", None, 7)),
        ControllerAction::Notify(ModuleUpdateEvent::TogglePopup(7))
    ));
    assert!(matches!(
        c.handle_exec_event(&ev("popup:close", None, 7)),
        ControllerAction::Notify(ModuleUpdateEvent::ClosePopup)
    ));
}

#[test]
fn exec_event_launches_with_split_and_supplied_args() {
    let mut c = Controller::new(1);
    let a = c.handle_exec_event(&ev("!echo hello", Some(&["world"]), 1));
    match a {
        ControllerAction::Launch { program, args } => {
            assert_eq!(program, "echo");
            assert_eq!(args, vec![String::from("hello"), String::from("world")]);
        }
        _ => panic!("expected a launch action"),
    }
}

#[test]
fn empty_exec_command_is_reported_as_such() {
    let mut c = Controller::new(1);
    let a = c.handle_exec_event(&ev("!", None, 1));
    assert!(matches!(
        a,
        ControllerAction::Report(CommandError::EmptyProgram { .. })
    ));
}

#[test]
fn controller_drains_exactly_on_channel_closure() {
    let (tx, mut rx) = tokio::sync::mpsc::channel::<ExecEvent>(8);
    let mut c = Controller::new(5);
    tx.try_send(ev("popup:open", None, 5)).unwrap();
    tx.try_send(ev("frobnicate", None, 5)).unwrap();
    let actions = c.poll(&mut rx, 16);
    assert_eq!(actions.len(), 2);
    // The channel is open and empty: still running, never spontaneous.
    assert_eq!(c.state, ControllerState::Running);
    drop(tx);
    let actions = c.poll(&mut rx, 16);
    assert_eq!(actions.len(), 0);
    assert_eq!(c.state, ControllerState::Draining);
    c.drained();
    assert_eq!(c.state, ControllerState::Terminated);
}

#[test]
fn receipt_order_is_preserved() {
    let (tx, mut rx) = tokio::sync::mpsc::channel::<ExecEvent>(8);
    let mut c = Controller::new(2);
    tx.try_send(ev("popup:open", None, 2)).unwrap();
    tx.try_send(ev("popup:close", None, 2)).unwrap();
    let actions = c.poll(&mut rx, 16);
    assert_eq!(actions.len(), 2);
    assert!(matches!(
        actions[0],
        ControllerAction::Notify(ModuleUpdateEvent::OpenPopup(2))
    ));
    assert!(matches!(
        actions[1],
        ControllerAction::Notify(ModuleUpdateEvent::ClosePopup)
    ));
}

#[test]
fn overflowing_send_reports_and_returns_the_event() {
    let (tx, _rx) = tokio::sync::mpsc::channel::<ExecEvent>(2);
    assert!(send_exec_event(&tx, ev("popup:open", None, 1)).is_ok());
    assert!(send_exec_event(&tx, ev("popup:close", None, 1)).is_ok());
    match send_exec_event(&tx, ev("!late one", None, 1)) {
        Err(ChannelError::Full { event }) => assert_eq!(event.cmd, "!late one"),
        _ => panic!("expected the overflow to be reported with the event"),
    }
}

#[test]
fn send_to_closed_channel_reports_and_returns_the_event() {
    let (tx, rx) = tokio::sync::mpsc::channel::<ExecEvent>(2);
    drop(rx);
    match send_exec_event(&tx, ev("popup:open", None, 1)) {
        Err(ChannelError::Closed { event }) => assert_eq!(event.cmd, "popup:open"),
        _ => panic!("expected the closed channel to be reported with the event"),
    }
}

#[test]
fn routing_updates_reaches_subscribers_and_popup_directives_drive_the_registry() {
    let mut reg = PopupRegistry::new();
    reg.register(PopupEntry {
        id: 7,
        content: Container::new(Orientation::Horizontal),
        buttons: Vec::new(),
    });
    let (update_tx, _keep) = tokio::sync::broadcast::channel::<u32>(8);
    let mut sub = update_tx.subscribe();
    let n = route_update_event(ModuleUpdateEvent::Update(41), &mut reg, &update_tx);
    assert_eq!(n, 2);
    assert_eq!(sub.try_recv().unwrap(), 41);
    assert_eq!(reg.visible, None);
    route_update_event(ModuleUpdateEvent::<u32>::TogglePopup(7), &mut reg, &update_tx);
    assert_eq!(reg.visible, Some(7));
    route_update_event(ModuleUpdateEvent::<u32>::ClosePopup, &mut reg, &update_tx);
    assert_eq!(reg.visible, None);
}

#[test]
fn broadcast_subscribers_see_no_replay() {
    let (update_tx, _keep) = tokio::sync::broadcast::channel::<u32>(8);
    let mut reg = PopupRegistry::new();
    route_update_event(ModuleUpdateEvent::Update(1), &mut reg, &update_tx);
    let mut late = update_tx.subscribe();
    assert!(late.try_recv().is_err());
    route_update_event(ModuleUpdateEvent::Update(2), &mut reg, &update_tx);
    assert_eq!(late.try_recv().unwrap(), 2);
}
