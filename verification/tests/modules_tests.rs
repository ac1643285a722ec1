use barmods::command::ExecEvent;
use barmods::controller::{ControllerAction, ControllerState};
use barmods::events::{pump_updates, route_update_event, send_exec_event, ModuleUpdateEvent};
use barmods::modules::UiPump;
use barmods::modules::{
    add_widgets, AppHandle, BarModuleFactory, ConstructionError, ControllerBundle,
    CustomModule, CustomWidgetContext, ModuleConfig, ModuleInfo, ScriptModule, WidgetConfig,
    WidgetOrModule,
};
use barmods::orientation::Orientation;
use barmods::popup::PopupRegistry;
use barmods::widgets::{BuiltContent, CommonConfig, Container, Widget};

fn info() -> ModuleInfo {
    ModuleInfo {
        bar_orientation: Orientation::Horizontal,
        icon_theme: String::from("hicolor"),
        output_name: String::from("DP-1"),
    }
}

fn ctx() -> CustomWidgetContext {
    let (tx, _rx) = tokio::sync::mpsc::channel::<ExecEvent>(8);
    CustomWidgetContext {
        bar_orientation: Orientation::Horizontal,
        icon_theme: String::from("hicolor"),
        tx,
    }
}

fn plain() -> CommonConfig {
    CommonConfig { name: None, class: None, length: None }
}

fn named(n: &str) -> CommonConfig {
    CommonConfig { name: Some(String::from(n)), class: None, length: None }
}

fn widget_node(w: Widget, common: CommonConfig) -> WidgetConfig {
    WidgetConfig { widget: WidgetOrModule::Widget(w), common }
}

fn script_node(cmd: &str) -> WidgetConfig {
    WidgetConfig {
        widget: WidgetOrModule::Module(ModuleConfig::Script(ScriptModule {
            cmd: String::from(cmd),
            common: Some(plain()),
        })),
        common: plain(),
    }
}

#[test]
fn children_keep_configuration_order_and_a_failed_node_is_skipped_and_reported() {
    let cfgs = vec![
        widget_node(Widget::Label, named("a")),
        script_node(""), // cannot construct: empty command
        widget_node(Widget::Button, named("c")),
    ];
    let mut parent = Container::new(Orientation::Horizontal);
    let mut buttons = Vec::new();
    let mut errors = Vec::new();
    let mut app = AppHandle::new();
    let mut popups = PopupRegistry::new();
    add_widgets(cfgs, &mut parent, &ctx(), &info(), &mut buttons, &mut errors, &mut app, &mut popups);
    assert_eq!(parent.children.len(), 2);
    assert_eq!(parent.children[0].name.as_deref(), Some("a"));
    assert!(matches!(parent.children[0].content, BuiltContent::Leaf(Widget::Label)));
    assert_eq!(parent.children[1].name.as_deref(), Some("c"));
    assert!(matches!(parent.children[1].content, BuiltContent::Leaf(Widget::Button)));
    // The failure is reported once, for the one failed node.
    assert_eq!(errors, vec![ConstructionError::EmptyCommand]);
    // The button was collected as a popup-trigger element.
    assert_eq!(buttons.len(), 1);
}

#[test]
fn a_nested_module_is_built_in_place_with_a_fresh_id() {
    let cfgs = vec![
        widget_node(Widget::Label, plain()),
        script_node("date"),
        widget_node(Widget::Button, plain()),
    ];
    let mut parent = Container::new(Orientation::Horizontal);
    let mut buttons = Vec::new();
    let mut errors = Vec::new();
    let mut app = AppHandle::new();
    let mut popups = PopupRegistry::new();
    add_widgets(cfgs, &mut parent, &ctx(), &info(), &mut buttons, &mut errors, &mut app, &mut popups);
    assert_eq!(parent.children.len(), 3);
    assert!(errors.is_empty());
    match &parent.children[1].content {
        BuiltContent::Module { id, widget } => {
            assert_eq!(*id, 0);
            assert_eq!(widget.children.len(), 1);
            assert!(matches!(widget.children[0].content, BuiltContent::Leaf(Widget::Label)));
        }
        _ => panic!("expected the middle child to be the nested module"),
    }
    // One controller task was handed off, running.
    assert_eq!(app.tasks.len(), 1);
    match &app.tasks[0] {
        ControllerBundle::Script(sc) => {
            assert_eq!(sc.controller.state, ControllerState::Running);
            assert_eq!(sc.controller.id, 0);
            assert_eq!(sc.cmd, "date");
        }
        _ => panic!("expected a script controller"),
    }
    // A script module declares no popup.
    assert!(popups.entries.is_empty());
}

#[test]
fn creating_a_custom_module_registers_its_popup_under_its_id() {
    let module = ModuleConfig::Custom(CustomModule {
        bar: vec![widget_node(Widget::Button, named("trigger"))],
        popup: Some(vec![widget_node(Widget::Label, named("detail"))]),
        common: Some(plain()),
    });
    let mut app = AppHandle::new();
    let mut popups = PopupRegistry::new();
    let id = app.unique_id();
    let parts = BarModuleFactory::create(module, id, &info(), &mut app, &mut popups).unwrap();
    assert_eq!(parts.popup, Some(id));
    assert!(popups.registered(id));
    assert_eq!(popups.visible, None);
    assert_eq!(parts.widget.children.len(), 1);
    assert_eq!(popups.entries.len(), 1);
    assert_eq!(popups.entries[0].content.children.len(), 1);
    assert_eq!(popups.entries[0].content.children[0].name.as_deref(), Some("detail"));
    // The bar's button is recorded as the popup's trigger element.
    assert_eq!(popups.entries[0].buttons.len(), 1);
    match &app.tasks[0] {
        ControllerBundle::Custom(cc) => {
            assert_eq!(cc.controller.state, ControllerState::Running);
            assert_eq!(cc.controller.id, id);
        }
        _ => panic!("expected a custom controller"),
    }
}

#[test]
fn creating_a_script_module_with_an_empty_command_fails_cleanly() {
    let module = ModuleConfig::Script(ScriptModule { cmd: String::new(), common: Some(plain()) });
    let mut app = AppHandle::new();
    let mut popups = PopupRegistry::new();
    let id = app.unique_id();
    let r = BarModuleFactory::create(module, id, &info(), &mut app, &mut popups);
    assert_eq!(r.err(), Some(ConstructionError::EmptyCommand));
    // Nothing was attached, handed off or registered.
    assert!(app.tasks.is_empty());
    assert!(popups.entries.is_empty());
}

#[test]
fn unique_ids_are_monotonic_and_never_reused() {
    let mut app = AppHandle::new();
    assert_eq!(app.unique_id(), 0);
    assert_eq!(app.unique_id(), 1);
    assert_eq!(app.unique_id(), 2);
    assert_eq!(app.next_id, 3);
}

#[test]
fn an_empty_custom_module_still_has_a_widget_and_a_popup_surface() {
    let module = ModuleConfig::Custom(CustomModule { bar: vec![], popup: None, common: Some(plain()) });
    let mut app = AppHandle::new();
    let mut popups = PopupRegistry::new();
    let id = app.unique_id();
    let parts = BarModuleFactory::create(module, id, &info(), &mut app, &mut popups).unwrap();
    assert!(parts.widget.children.is_empty());
    assert_eq!(parts.widget.orientation, Orientation::Horizontal);
    assert_eq!(parts.popup, Some(id));
    assert!(popups.entries[0].content.children.is_empty());
}

#[test]
fn module_length_is_applied_from_its_own_common_configuration() {
    let cfgs = vec![WidgetConfig {
        widget: WidgetOrModule::Module(ModuleConfig::Script(ScriptModule {
            cmd: String::from("uptime"),
            common: Some(CommonConfig { name: None, class: None, length: Some(90) }),
        })),
        common: plain(),
    }];
    let mut parent = Container::new(Orientation::Horizontal);
    let mut buttons = Vec::new();
    let mut errors = Vec::new();
    let mut app = AppHandle::new();
    let mut popups = PopupRegistry::new();
    add_widgets(cfgs, &mut parent, &ctx(), &info(), &mut buttons, &mut errors, &mut app, &mut popups);
    assert_eq!(parent.children[0].width_request, Some(90));
    assert_eq!(parent.children[0].height_request, None);
}

#[test]
fn a_toggle_interaction_travels_from_ui_to_controller_to_popup() {
    let module = ModuleConfig::Custom(CustomModule {
        bar: vec![widget_node(Widget::Button, plain())],
        popup: Some(vec![widget_node(Widget::Label, plain())]),
        common: Some(plain()),
    });
    let mut app = AppHandle::new();
    let mut popups = PopupRegistry::new();
    let id = app.unique_id();
    BarModuleFactory::create(module, id, &info(), &mut app, &mut popups).unwrap();

    let (mut ui_rx, update_tx, interaction_tx) = match app.pumps.remove(0) {
        UiPump::Custom { rx, update_tx, interaction_tx } => (rx, update_tx, interaction_tx),
        _ => panic!("expected the custom module's pump"),
    };
    let mut bundle = match app.tasks.remove(0) {
        ControllerBundle::Custom(cb) => cb,
        _ => panic!("expected the custom module's controller"),
    };

    // A button press asks to toggle the module's popup.
    send_exec_event(
        &interaction_tx,
        ExecEvent { cmd: String::from("popup:toggle"), args: None, id },
    )
    .unwrap();

    // The controller reacts in receipt order and answers with a directive.
    let actions = bundle.controller.poll(&mut bundle.rx, 16);
    assert_eq!(actions.len(), 1);
    match &actions[0] {
        ControllerAction::Notify(ev) => {
            assert!(matches!(ev, ModuleUpdateEvent::TogglePopup(i) if *i == id));
            // The driver forwards it to the UI side.
            bundle.tx.try_send(ModuleUpdateEvent::TogglePopup(id)).unwrap();
        }
        _ => panic!("expected a popup directive"),
    }

    // The UI pump routes it into the registry: the popup becomes visible.
    let routed = pump_updates(&mut ui_rx, &mut popups, &update_tx, 16);
    assert_eq!(routed, 1);
    assert_eq!(popups.visible, Some(id));
    let _ = route_update_event(ModuleUpdateEvent::<()>::ClosePopup, &mut popups, &update_tx);
    assert_eq!(popups.visible, None);
}
