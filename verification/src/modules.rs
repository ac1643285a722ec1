//! Module construction and the recursive widget/module composition tree.
//!
//! A configuration node is either a primitive widget or a full nested
//! module; the factory builds each module's UI container, hands its
//! controller off as a ready-to-run task, allocates its channels, and
//! registers its popup under the module's process-unique id. One failed
//! node never prevents its siblings from being built: its error is
//! reported and construction continues in configuration order.

use crate::channels::{broadcast_channel, mpsc_channel};
use crate::command::ExecEvent;
use crate::controller::Controller;
use crate::events::ModuleUpdateEvent;
use crate::orientation::Orientation;
use crate::popup::{PopupEntry, PopupRegistry};
use crate::widgets::{spec_wrap, BuiltContent, BuiltNode, CommonConfig, Container, Widget};
use vstd::prelude::*;
use vstd::seq_lib::*;

verus! {

/// The bounded capacity every module channel is allocated with: small
/// enough for backpressure, large enough for interactive traffic.
pub const CHANNEL_CAPACITY: usize = 64;

/// Read-only metadata a module is constructed against.
#[derive(Debug)]
pub struct ModuleInfo {
    pub bar_orientation: Orientation,
    pub icon_theme: String,
    pub output_name: String,
}

/// A construction failure: fatal to the one module instance, reported,
/// and the instance is omitted from the tree.
#[derive(Debug, Clone, Copy, PartialEq, Eq, Structural)]
pub enum ConstructionError {
    EmptyCommand,
}

/// A module description from configuration: the closed set of module
/// kinds this bar can instantiate.
#[derive(Debug)]
pub enum ModuleConfig {
    Custom(CustomModule),
    Script(ScriptModule),
}

/// The generic group module: widgets for the bar, widgets for an
/// optional popup, nested modules allowed in both.
#[derive(Debug)]
pub struct CustomModule {
    /// Widgets to add to the bar container.
    pub bar: Vec<WidgetConfig>,
    /// Widgets to add to the popup container.
    pub popup: Option<Vec<WidgetConfig>>,
    pub common: Option<CommonConfig>,
}

/// A module that runs one external command and shows its output.
#[derive(Debug)]
pub struct ScriptModule {
    pub cmd: String,
    pub common: Option<CommonConfig>,
}

/// One configuration node: a widget or module, with its presentation.
#[derive(Debug)]
pub struct WidgetConfig {
    pub widget: WidgetOrModule,
    pub common: CommonConfig,
}

/// A configuration node is exactly one of: a primitive widget, or a
/// nested full module.
#[derive(Debug)]
pub enum WidgetOrModule {
    Widget(Widget),
    Module(ModuleConfig),
}

/// The context shared by the widgets of one custom module while the
/// tree is built.
pub struct CustomWidgetContext {
    pub bar_orientation: Orientation,
    pub icon_theme: String,
    pub tx: tokio::sync::mpsc::Sender<ExecEvent>,
}

/// The dependency bundle handed to a module at construction: its id, and
/// its three channel endpoints.
#[verifier::reject_recursive_types(S)]
pub struct WidgetContext<S> {
    pub id: usize,
    /// Controller-to-UI events, consumed by the UI scheduler's pump.
    pub tx: tokio::sync::mpsc::Sender<ModuleUpdateEvent<S>>,
    /// UI-to-controller events.
    pub controller_tx: tokio::sync::mpsc::Sender<ExecEvent>,
    /// Fan-out of the module's updates to its UI subscribers.
    pub update_tx: tokio::sync::broadcast::Sender<S>,
}

impl<S: Clone> WidgetContext<S> {
    /// A fresh subscription to the module's updates; it sees only what
    /// is sent after this call.
    pub fn subscribe(&self) -> tokio::sync::broadcast::Receiver<S> {
        crate::channels::broadcast_subscribe(&self.update_tx)
    }
}

/// The controller-side wiring of a spawned custom module task.
pub struct CustomController {
    pub controller: Controller,
    pub rx: tokio::sync::mpsc::Receiver<ExecEvent>,
    pub tx: tokio::sync::mpsc::Sender<ModuleUpdateEvent<()>>,
}

/// The controller-side wiring of a spawned script module task.
pub struct ScriptController {
    pub controller: Controller,
    pub cmd: String,
    pub rx: tokio::sync::mpsc::Receiver<ExecEvent>,
    pub tx: tokio::sync::mpsc::Sender<ModuleUpdateEvent<String>>,
}

/// A ready-to-run controller task, handed off at construction.
pub enum ControllerBundle {
    Custom(CustomController),
    Script(ScriptController),
}

/// The UI-side endpoints of one module: its controller-event queue, its
/// broadcast fan-out, and the sender UI elements use to reach the
/// controller.
pub enum UiPump {
    Custom {
        rx: tokio::sync::mpsc::Receiver<ModuleUpdateEvent<()>>,
        update_tx: tokio::sync::broadcast::Sender<()>,
        interaction_tx: tokio::sync::mpsc::Sender<ExecEvent>,
    },
    Script {
        rx: tokio::sync::mpsc::Receiver<ModuleUpdateEvent<String>>,
        update_tx: tokio::sync::broadcast::Sender<String>,
        interaction_tx: tokio::sync::mpsc::Sender<ExecEvent>,
    },
}

/// The lifecycle state machine of a handed-off task.
pub open spec fn bundle_controller(b: ControllerBundle) -> Controller {
    match b {
        ControllerBundle::Custom(c) => c.controller,
        ControllerBundle::Script(s) => s.controller,
    }
}

/// The shared application handle: the unique-id counter and the task
/// and pump lists the scheduler will run. All access is from the one UI
/// scheduler, so the state is owned here and threaded explicitly.
pub struct AppHandle {
    pub next_id: usize,
    pub tasks: Vec<ControllerBundle>,
    pub pumps: Vec<UiPump>,
}

impl AppHandle {
    /// A fresh handle: no module constructed yet.
    pub fn new() -> (r: AppHandle)
        ensures
            r.next_id == 0,
            r.tasks@ =~= Seq::<ControllerBundle>::empty(),
            r.pumps@ =~= Seq::<UiPump>::empty(),
    {
        AppHandle { next_id: 0, tasks: Vec::new(), pumps: Vec::new() }
    }

    /// Draws the next process-unique module id: monotonic, never reused.
    pub fn unique_id(&mut self) -> (id: usize)
        requires
            old(self).next_id < usize::MAX,
        ensures
            id == old(self).next_id,
            final(self).next_id == old(self).next_id + 1,
            final(self).tasks == old(self).tasks,
            final(self).pumps == old(self).pumps,
    {
        let id = self.next_id;
        self.next_id = self.next_id + 1;
        id
    }
}

/// The constructed result: the module's bar widget, and the registry key
/// of its popup if it declares one.
#[derive(Debug)]
pub struct ModuleParts {
    pub widget: Container,
    pub popup: Option<usize>,
}

/// A custom module's popup surface: built once, with the bar's
/// popup-trigger buttons.
#[derive(Debug)]
pub struct ModulePopupParts {
    pub container: Container,
    pub buttons: Vec<BuiltNode>,
}

// ------------------------------------------------------------------
// Structural measures over configuration trees.
// ------------------------------------------------------------------

/// Size of a node list, for termination of the mutual recursion.
pub open spec fn list_size(s: Seq<WidgetConfig>) -> nat
    decreases s,
{
    if s.len() == 0 {
        0
    } else {
        wc_size(s[0]) + list_size(s.subrange(1, s.len() as int))
    }
}

pub open spec fn wc_size(c: WidgetConfig) -> nat
    decreases c,
{
    1 + wom_size(c.widget)
}

pub open spec fn wom_size(w: WidgetOrModule) -> nat
    decreases w,
{
    match w {
        WidgetOrModule::Widget(_) => 1,
        WidgetOrModule::Module(mc) => 1 + mc_size(mc),
    }
}

pub open spec fn mc_size(mc: ModuleConfig) -> nat
    decreases mc,
{
    match mc {
        ModuleConfig::Custom(cm) => 1 + custom_size(cm),
        ModuleConfig::Script(_) => 1,
    }
}

pub open spec fn custom_size(cm: CustomModule) -> nat
    decreases cm,
{
    1 + list_size(cm.bar@) + opt_size(cm.popup)
}

pub open spec fn opt_size(o: Option<Vec<WidgetConfig>>) -> nat
    decreases o,
{
    match o {
        Some(v) => 1 + list_size(v@),
        None => 0,
    }
}

// ------------------------------------------------------------------
// Well-formedness: every module node carries its common configuration.
// ------------------------------------------------------------------

/// The common configuration of a module description.
pub open spec fn mc_common(mc: ModuleConfig) -> Option<CommonConfig> {
    match mc {
        ModuleConfig::Custom(cm) => cm.common,
        ModuleConfig::Script(s) => s.common,
    }
}

pub open spec fn list_wf(s: Seq<WidgetConfig>) -> bool
    decreases s,
{
    if s.len() == 0 {
        true
    } else {
        wom_wf(s[0].widget) && list_wf(s.subrange(1, s.len() as int))
    }
}

/// A widget node is always well formed; a module node must carry its
/// common configuration — its absence is a contract violation, not a
/// user error.
pub open spec fn wom_wf(w: WidgetOrModule) -> bool
    decreases w,
{
    match w {
        WidgetOrModule::Widget(_) => true,
        WidgetOrModule::Module(mc) => mc_common(mc) is Some && mc_wf(mc),
    }
}

pub open spec fn mc_wf(mc: ModuleConfig) -> bool
    decreases mc,
{
    match mc {
        ModuleConfig::Custom(cm) => list_wf(cm.bar@) && opt_wf(cm.popup),
        ModuleConfig::Script(_) => true,
    }
}

pub open spec fn opt_wf(o: Option<Vec<WidgetConfig>>) -> bool
    decreases o,
{
    match o {
        Some(v) => list_wf(v@),
        None => true,
    }
}

// ------------------------------------------------------------------
// Constructibility: which nodes the factory builds successfully.
// ------------------------------------------------------------------

/// Whether constructing this module succeeds: a script module with an
/// empty command cannot spawn its controller; everything else builds.
/// Failures inside a nested custom module are swallowed there and do
/// not fail the module itself.
pub open spec fn mc_constructible(mc: ModuleConfig) -> bool {
    match mc {
        ModuleConfig::Custom(_) => true,
        ModuleConfig::Script(s) => s.cmd@.len() > 0,
    }
}

pub open spec fn wom_constructible(w: WidgetOrModule) -> bool {
    match w {
        WidgetOrModule::Widget(_) => true,
        WidgetOrModule::Module(mc) => mc_constructible(mc),
    }
}

pub open spec fn wc_constructible(c: WidgetConfig) -> bool {
    wom_constructible(c.widget)
}

/// How many nodes of the list fail to construct: each is reported once.
pub open spec fn bad_count(s: Seq<WidgetConfig>) -> nat
    decreases s,
{
    if s.len() == 0 {
        0
    } else {
        (if wc_constructible(s[0]) {
            0nat
        } else {
            1nat
        }) + bad_count(s.subrange(1, s.len() as int))
    }
}

// ------------------------------------------------------------------
// Ids drawn while building: one per module node.
// ------------------------------------------------------------------

pub open spec fn list_ids(s: Seq<WidgetConfig>) -> nat
    decreases s,
{
    if s.len() == 0 {
        0
    } else {
        wom_ids(s[0].widget) + list_ids(s.subrange(1, s.len() as int))
    }
}

pub open spec fn wom_ids(w: WidgetOrModule) -> nat
    decreases w,
{
    match w {
        WidgetOrModule::Widget(_) => 0,
        WidgetOrModule::Module(mc) => 1 + mc_ids(mc),
    }
}

pub open spec fn mc_ids(mc: ModuleConfig) -> nat
    decreases mc,
{
    match mc {
        ModuleConfig::Custom(cm) => list_ids(cm.bar@) + opt_ids(cm.popup),
        ModuleConfig::Script(_) => 0,
    }
}

pub open spec fn opt_ids(o: Option<Vec<WidgetConfig>>) -> nat
    decreases o,
{
    match o {
        Some(v) => list_ids(v@),
        None => 0,
    }
}

// ------------------------------------------------------------------
// What a built tree must look like for its configuration.
// ------------------------------------------------------------------

/// The one child of a script module's container.
pub open spec fn script_label_node() -> BuiltNode {
    BuiltNode {
        content: BuiltContent::Leaf(Widget::Label),
        name: None,
        class: None,
        width_request: None,
        height_request: None,
    }
}

/// Whether `c` is the container the factory builds for the module
/// description `mc` under bar orientation `o`.
pub open spec fn container_represents(mc: ModuleConfig, o: Orientation, c: Container) -> bool
    decreases mc,
{
    match mc {
        ModuleConfig::Custom(cm) => {
            &&& c.orientation == o
            &&& list_represents(cm.bar@, o, c.children@)
        },
        ModuleConfig::Script(_) => {
            &&& c.orientation == o
            &&& c.children@.len() == 1
            &&& c.children@[0] == script_label_node()
        },
    }
}

/// Whether `node` is the realization of the configuration node `cfg`: a
/// widget node is wrapped under the node's own common configuration, a
/// module node under the module's.
pub open spec fn node_represents(cfg: WidgetConfig, o: Orientation, node: BuiltNode) -> bool
    decreases cfg,
{
    match cfg.widget {
        WidgetOrModule::Widget(w) => node == spec_wrap(BuiltContent::Leaf(w), cfg.common, o),
        WidgetOrModule::Module(mc) => match mc_common(mc) {
            Some(cc) => {
                &&& (node.content matches BuiltContent::Module { id: _, widget }
                    && container_represents(mc, o, widget))
                &&& node.name == cc.name
                &&& node.class == cc.class
                &&& node.width_request == (if cc.length is Some && o == Orientation::Horizontal {
                    cc.length
                } else {
                    None
                })
                &&& node.height_request == (if cc.length is Some && o == Orientation::Vertical {
                    cc.length
                } else {
                    None
                })
            },
            None => false,
        },
    }
}

/// Whether `nodes` realizes the configuration list `cfgs` in order: the
/// constructible nodes appear, each represented, in configuration
/// order; the failed ones are simply absent.
pub open spec fn list_represents(
    cfgs: Seq<WidgetConfig>,
    o: Orientation,
    nodes: Seq<BuiltNode>,
) -> bool
    decreases cfgs,
{
    if cfgs.len() == 0 {
        nodes.len() == 0
    } else if wc_constructible(cfgs[0]) {
        &&& nodes.len() > 0
        &&& node_represents(cfgs[0], o, nodes[0])
        &&& list_represents(
            cfgs.subrange(1, cfgs.len() as int),
            o,
            nodes.subrange(1, nodes.len() as int),
        )
    } else {
        list_represents(cfgs.subrange(1, cfgs.len() as int), o, nodes)
    }
}

// ------------------------------------------------------------------
// The state threading every build step preserves.
// ------------------------------------------------------------------

/// Every registered popup id was drawn from the counter.
pub open spec fn popups_bounded(p: PopupRegistry, next_id: usize) -> bool {
    forall|i: int|
        0 <= i < p.entries@.len() ==> (#[trigger] p.entries@[i]).id < next_id
}

/// How one build step may change the shared state: the id counter only
/// grows; handed-off tasks and pumps are only appended, every new task
/// running; popups are only registered, never opened, closed or
/// dropped, and every new entry's id is fresh with respect to the
/// counter the step started from.
pub open spec fn build_extends(
    app0: AppHandle,
    p0: PopupRegistry,
    app1: AppHandle,
    p1: PopupRegistry,
) -> bool {
    &&& app0.next_id <= app1.next_id
    &&& app0.tasks@.is_prefix_of(app1.tasks@)
    &&& app0.pumps@.is_prefix_of(app1.pumps@)
    &&& forall|k: int|
        app0.tasks@.len() <= k < app1.tasks@.len() ==> bundle_controller(
            #[trigger] app1.tasks@[k],
        ).state == crate::controller::ControllerState::Running
    &&& p1.wf()
    &&& p1.visible == p0.visible
    &&& p0.entries@.is_prefix_of(p1.entries@)
    &&& popups_bounded(p1, app1.next_id)
}

/// `build_extends` composes across consecutive steps.
pub proof fn lemma_extends_trans(
    app0: AppHandle,
    p0: PopupRegistry,
    app1: AppHandle,
    p1: PopupRegistry,
    app2: AppHandle,
    p2: PopupRegistry,
)
    requires
        build_extends(app0, p0, app1, p1),
        build_extends(app1, p1, app2, p2),
    ensures
        build_extends(app0, p0, app2, p2),
{
    assert(app0.tasks@.is_prefix_of(app2.tasks@)) by {
        assert(app0.tasks@ =~= app2.tasks@.subrange(0, app0.tasks@.len() as int));
    }
    assert(app0.pumps@.is_prefix_of(app2.pumps@)) by {
        assert(app0.pumps@ =~= app2.pumps@.subrange(0, app0.pumps@.len() as int));
    }
    assert(p0.entries@.is_prefix_of(p2.entries@)) by {
        assert(p0.entries@ =~= p2.entries@.subrange(0, p0.entries@.len() as int));
    }
    assert forall|k: int|
        app0.tasks@.len() <= k < app2.tasks@.len() implies bundle_controller(
        #[trigger] app2.tasks@[k],
    ).state == crate::controller::ControllerState::Running by {
        if k < app1.tasks@.len() {
            assert(app2.tasks@[k] == app1.tasks@[k]);
        }
    }
}

/// An untouched state is a valid (empty) build step.
pub proof fn lemma_extends_refl(app: AppHandle, p: PopupRegistry)
    requires
        p.wf(),
        popups_bounded(p, app.next_id),
    ensures
        build_extends(app, p, app, p),
{
    assert(app.tasks@ =~= app.tasks@.subrange(0, app.tasks@.len() as int));
    assert(app.pumps@ =~= app.pumps@.subrange(0, app.pumps@.len() as int));
    assert(p.entries@ =~= p.entries@.subrange(0, p.entries@.len() as int));
}

// ------------------------------------------------------------------
// Exact clones of plain configuration values.
// ------------------------------------------------------------------

fn clone_opt_string(o: &Option<String>) -> (r: Option<String>)
    ensures
        r == *o,
{
    match o {
        Some(s) => Some(s.clone()),
        None => None,
    }
}

fn clone_common(c: &CommonConfig) -> (r: CommonConfig)
    ensures
        r == *c,
{
    CommonConfig {
        name: clone_opt_string(&c.name),
        class: clone_opt_string(&c.class),
        length: c.length,
    }
}

/// The common configuration of a module description, copied out.
fn get_common(mc: &ModuleConfig) -> (r: Option<CommonConfig>)
    ensures
        r == mc_common(*mc),
{
    match mc {
        ModuleConfig::Custom(cm) => match &cm.common {
            Some(c) => Some(clone_common(c)),
            None => None,
        },
        ModuleConfig::Script(s) => match &s.common {
            Some(c) => Some(clone_common(c)),
            None => None,
        },
    }
}

// ------------------------------------------------------------------
// Building the tree.
// ------------------------------------------------------------------

impl Widget {
    /// Creates this widget and adds it to the parent container, wrapped
    /// under the node's common presentation. A button is also recorded
    /// as a popup-trigger element.
    pub fn add_to(
        self,
        parent: &mut Container,
        common: CommonConfig,
        ctx: &CustomWidgetContext,
        popup_buttons: &mut Vec<BuiltNode>,
    )
        ensures
            final(parent).orientation == old(parent).orientation,
            final(parent).children@ =~= old(parent).children@.push(
                spec_wrap(BuiltContent::Leaf(self), common, ctx.bar_orientation),
            ),
            self == Widget::Button ==> final(popup_buttons)@ =~= old(popup_buttons)@.push(
                spec_wrap(BuiltContent::Leaf(self), common, ctx.bar_orientation),
            ),
            self != Widget::Button ==> final(popup_buttons)@ =~= old(popup_buttons)@,
    {
        let is_button = matches!(self, Widget::Button);
        if is_button {
            let common2 = clone_common(&common);
            let trigger = crate::widgets::wrap_widget(
                BuiltContent::Leaf(self),
                common2,
                ctx.bar_orientation,
            );
            popup_buttons.push(trigger);
        }
        let node = crate::widgets::wrap_widget(
            BuiltContent::Leaf(self),
            common,
            ctx.bar_orientation,
        );
        parent.children.push(node);
    }
}

impl CustomModule {
    /// The name this module kind goes by in configuration.
    pub fn name() -> (r: &'static str)
        ensures
            r@ == "custom"@,
    {
        "custom"
    }

    /// Hands off this module's controller task: never blocks, never
    /// fails, and the task starts in `Running`.
    pub fn spawn_controller(
        &self,
        _info: &ModuleInfo,
        context: &WidgetContext<()>,
        rx: tokio::sync::mpsc::Receiver<ExecEvent>,
    ) -> (r: Result<CustomController, ConstructionError>)
        ensures
            r is Ok,
            r matches Ok(c) ==> c.controller.state == crate::controller::ControllerState::Running
                && c.controller.id == context.id,
    {
        Ok(
            CustomController {
                controller: Controller::new(context.id),
                rx,
                tx: context.tx.clone(),
            },
        )
    }

    /// Builds this module's bar container: every configured node in
    /// order, nested modules through the factory, one failure never
    /// aborting its siblings — and beside it the popup surface with the
    /// bar's trigger buttons.
    pub fn into_widget(
        self,
        context: WidgetContext<()>,
        info: &ModuleInfo,
        app: &mut AppHandle,
        popups: &mut PopupRegistry,
    ) -> (r: Result<(Container, ModulePopupParts), ConstructionError>)
        requires
            list_wf(self.bar@),
            opt_wf(self.popup),
            old(app).next_id + list_ids(self.bar@) + opt_ids(self.popup) <= usize::MAX,
            old(popups).wf(),
            popups_bounded(*old(popups), old(app).next_id),
        ensures
            r is Ok,
            build_extends(*old(app), *old(popups), *final(app), *final(popups)),
            final(app).next_id <= old(app).next_id + list_ids(self.bar@) + opt_ids(self.popup),
            forall|k: int|
                old(popups).entries@.len() <= k < final(popups).entries@.len() ==> (
                #[trigger] final(popups).entries@[k]).id >= old(app).next_id,
            r matches Ok(p) ==> p.0.orientation == info.bar_orientation && list_represents(
                self.bar@,
                info.bar_orientation,
                p.0.children@,
            ),
            r matches Ok(p) ==> p.1.container.orientation == Orientation::Horizontal && (
            self.popup matches Some(v) ==> list_represents(
                v@,
                info.bar_orientation,
                p.1.container.children@,
            )) && (self.popup is None ==> p.1.container.children@.len() == 0),
        decreases custom_size(self),
    {
        proof {
            assert(custom_size(self) == 1 + list_size(self.bar@) + opt_size(self.popup));
        }
        let CustomModule { bar, popup, common: _ } = self;
        let mut container = Container::new(info.bar_orientation);
        let ctx = CustomWidgetContext {
            bar_orientation: info.bar_orientation,
            icon_theme: info.icon_theme.clone(),
            tx: context.controller_tx.clone(),
        };
        let mut buttons: Vec<BuiltNode> = Vec::new();
        let mut errors: Vec<ConstructionError> = Vec::new();
        let ghost app0 = *app;
        let ghost p0 = *popups;
        add_widgets(bar, &mut container, &ctx, info, &mut buttons, &mut errors, app, popups);
        let ghost app1 = *app;
        let ghost p1 = *popups;
        let popup_container = build_popup(popup, &ctx, info, app, popups);
        proof {
            lemma_extends_trans(app0, p0, app1, p1, *app, *popups);
            assert forall|k: int|
                p0.entries@.len() <= k < popups.entries@.len() implies (
            #[trigger] popups.entries@[k]).id >= app0.next_id by {
                if k < p1.entries@.len() {
                    assert(p1.entries@[k] == popups.entries@[k]);
                } else {
                    assert(popups.entries@[k].id >= app1.next_id);
                }
            }
            assert(container.children@.skip(0) =~= container.children@);
        }
        // A nested node's construction error has been reported into
        // `errors`; its siblings are all built, so the report is
        // dropped here, as the log line is on the embedding side.
        let _ = errors;
        Ok((container, ModulePopupParts { container: popup_container, buttons }))
    }

    /// Builds the popup surface alone. The container exists even for a
    /// module with no popup widgets configured, and is built once here,
    /// never rebuilt on open and close.
    pub fn into_popup(
        self,
        context: WidgetContext<()>,
        info: &ModuleInfo,
        app: &mut AppHandle,
        popups: &mut PopupRegistry,
    ) -> (r: Option<Container>)
        requires
            opt_wf(self.popup),
            old(app).next_id + opt_ids(self.popup) <= usize::MAX,
            old(popups).wf(),
            popups_bounded(*old(popups), old(app).next_id),
        ensures
            r is Some,
            build_extends(*old(app), *old(popups), *final(app), *final(popups)),
            r matches Some(c) ==> c.orientation == Orientation::Horizontal && (
            self.popup matches Some(v) ==> list_represents(
                v@,
                info.bar_orientation,
                c.children@,
            )) && (self.popup is None ==> c.children@.len() == 0),
        decreases custom_size(self),
    {
        proof {
            assert(custom_size(self) == 1 + list_size(self.bar@) + opt_size(self.popup));
        }
        let CustomModule { bar: _, popup, common: _ } = self;
        let ctx = CustomWidgetContext {
            bar_orientation: info.bar_orientation,
            icon_theme: info.icon_theme.clone(),
            tx: context.controller_tx.clone(),
        };
        Some(build_popup(popup, &ctx, info, app, popups))
    }
}

impl ScriptModule {
    /// The name this module kind goes by in configuration.
    pub fn name() -> (r: &'static str)
        ensures
            r@ == "script"@,
    {
        "script"
    }

    /// Hands off this module's controller task. A script module with an
    /// empty command has nothing to run: that, and only that, fails.
    pub fn spawn_controller(
        &self,
        _info: &ModuleInfo,
        context: &WidgetContext<String>,
        rx: tokio::sync::mpsc::Receiver<ExecEvent>,
    ) -> (r: Result<ScriptController, ConstructionError>)
        ensures
            r is Ok <==> self.cmd@.len() > 0,
            r matches Ok(c) ==> c.controller.state == crate::controller::ControllerState::Running
                && c.controller.id == context.id && c.cmd@ == self.cmd@,
            r matches Err(e) ==> e == ConstructionError::EmptyCommand,
    {
        if self.cmd.as_str().unicode_len() == 0 {
            Err(ConstructionError::EmptyCommand)
        } else {
            Ok(
                ScriptController {
                    controller: Controller::new(context.id),
                    cmd: self.cmd.clone(),
                    rx,
                    tx: context.tx.clone(),
                },
            )
        }
    }
}

/// The factory that builds bar modules: channels, controller hand-off,
/// UI construction and popup registration, all or nothing per module.
pub struct BarModuleFactory {}

impl BarModuleFactory {
    /// Instantiates one module: allocates its bounded channel pair and
    /// its broadcast fan-out, hands its controller off as a running
    /// task, builds its UI container, and registers its popup under the
    /// caller-drawn unique `id`. Succeeds exactly when the description
    /// is constructible; on failure nothing is attached or registered.
    pub fn create(
        config: ModuleConfig,
        id: usize,
        info: &ModuleInfo,
        app: &mut AppHandle,
        popups: &mut PopupRegistry,
    ) -> (r: Result<ModuleParts, ConstructionError>)
        requires
            mc_wf(config),
            id < old(app).next_id,
            !old(popups).spec_registered(id),
            old(app).next_id + mc_ids(config) <= usize::MAX,
            old(popups).wf(),
            popups_bounded(*old(popups), old(app).next_id),
        ensures
            build_extends(*old(app), *old(popups), *final(app), *final(popups)),
            final(app).next_id <= old(app).next_id + mc_ids(config),
            forall|k: int|
                old(popups).entries@.len() <= k < final(popups).entries@.len() ==> (
                #[trigger] final(popups).entries@[k]).id >= old(app).next_id || (
                #[trigger] final(popups).entries@[k]).id == id,
            r is Ok <==> mc_constructible(config),
            r matches Ok(parts) ==> container_represents(
                config,
                info.bar_orientation,
                parts.widget,
            ),
            r matches Ok(parts) ==> (config matches ModuleConfig::Custom(_) ==> parts.popup
                == Some(id) && final(popups).spec_registered(id)),
            r matches Ok(parts) ==> (config matches ModuleConfig::Script(_) ==> parts.popup
                is None),
            r is Ok ==> final(app).tasks@.len() > old(app).tasks@.len() && bundle_controller(
                final(app).tasks@[old(app).tasks@.len() as int],
            ).id == id,
            r is Err ==> *final(app) == *old(app) && *final(popups) == *old(popups),
        decreases mc_size(config),
    {
        match config {
            ModuleConfig::Custom(cm) => {
                proof {
                    assert(mc_size(ModuleConfig::Custom(cm)) == 1 + custom_size(cm));
                }
                let (controller_tx, controller_rx) = mpsc_channel::<ExecEvent>(CHANNEL_CAPACITY);
                let (tx, rx) = mpsc_channel::<ModuleUpdateEvent<()>>(CHANNEL_CAPACITY);
                let (update_tx, _first_rx) = broadcast_channel::<()>(CHANNEL_CAPACITY);
                let context = WidgetContext::<()> { id, tx, controller_tx, update_tx };
                let pump_update_tx = context.update_tx.clone();
                let interaction_tx = context.controller_tx.clone();
                let bundle = match cm.spawn_controller(info, &context, controller_rx) {
                    Ok(b) => b,
                    Err(e) => {
                        return Err(e);
                    },
                };
                let ghost app0 = *app;
                let ghost p0 = *popups;
                let ghost gbundle = bundle;
                app.tasks.push(ControllerBundle::Custom(bundle));
                app.pumps.push(UiPump::Custom { rx, update_tx: pump_update_tx, interaction_tx });
                let ghost app1 = *app;
                let ghost p1 = *popups;
                proof {
                    assert(app1.tasks@[app0.tasks@.len() as int] == ControllerBundle::Custom(
                        gbundle,
                    ));
                    assert(build_extends(app0, p0, app1, p1)) by {
                        assert(app0.tasks@.is_prefix_of(app1.tasks@)) by {
                            assert(app0.tasks@ =~= app1.tasks@.subrange(
                                0,
                                app0.tasks@.len() as int,
                            ));
                        }
                        assert(app0.pumps@.is_prefix_of(app1.pumps@)) by {
                            assert(app0.pumps@ =~= app1.pumps@.subrange(
                                0,
                                app0.pumps@.len() as int,
                            ));
                        }
                        assert(p0.entries@.is_prefix_of(p1.entries@)) by {
                            assert(p0.entries@ =~= p1.entries@.subrange(
                                0,
                                p0.entries@.len() as int,
                            ));
                        }
                        assert forall|k: int|
                            app0.tasks@.len() <= k < app1.tasks@.len() implies bundle_controller(
                            #[trigger] app1.tasks@[k],
                        ).state == crate::controller::ControllerState::Running by {
                            assert(k == app0.tasks@.len() as int);
                        }
                    }
                }
                let (widget, popup_parts) = match cm.into_widget(context, info, app, popups) {
                    Ok(p) => p,
                    Err(_) => {
                        proof {
                            assert(false);
                        }
                        (Container::new(Orientation::Horizontal), ModulePopupParts {
                            container: Container::new(Orientation::Horizontal),
                            buttons: Vec::new(),
                        })
                    },
                };
                let ghost app2 = *app;
                let ghost p2 = *popups;
                proof {
                    lemma_extends_trans(app0, p0, app1, p1, app2, p2);
                    assert(!popups.spec_registered(id)) by {
                        assert forall|i: int|
                            0 <= i < popups.entries@.len() implies (
                        #[trigger] popups.entries@[i]).id != id by {
                            if i < p0.entries@.len() {
                                assert(popups.entries@[i] == p0.entries@[i]);
                                assert(p0.entries@[i].id < app0.next_id);
                                assert(!p0.spec_registered(id));
                            } else {
                                assert(popups.entries@[i].id >= app1.next_id);
                            }
                        }
                    }
                }
                let entry = PopupEntry { id, content: popup_parts.container, buttons: popup_parts.buttons };
                popups.register(entry);
                proof {
                    assert(p2.entries@.is_prefix_of(popups.entries@)) by {
                        assert(p2.entries@ =~= popups.entries@.subrange(
                            0,
                            p2.entries@.len() as int,
                        ));
                    }
                    assert(popups.spec_registered(id)) by {
                        assert(popups.entries@[popups.entries@.len() - 1].id == id);
                    }
                    assert forall|k: int|
                        p0.entries@.len() <= k < popups.entries@.len() implies (
                    #[trigger] popups.entries@[k]).id >= app0.next_id || popups.entries@[k].id
                        == id by {
                        if k < p2.entries@.len() {
                            assert(popups.entries@[k] == p2.entries@[k]);
                            if p1.entries@.len() <= k {
                                assert(p2.entries@[k].id >= app1.next_id);
                            } else {
                                assert(p2.entries@[k] == p1.entries@[k]);
                                assert(false);
                            }
                        }
                    }
                    assert(popups_bounded(*popups, app.next_id));
                    assert(popups.wf());
                    assert(app1.tasks@ =~= app.tasks@.subrange(0, app1.tasks@.len() as int));
                    assert(app.tasks@[app0.tasks@.len() as int] == ControllerBundle::Custom(
                        gbundle,
                    ));
                }
                Ok(ModuleParts { widget, popup: Some(id) })
            },
            ModuleConfig::Script(s) => {
                let (controller_tx, controller_rx) = mpsc_channel::<ExecEvent>(CHANNEL_CAPACITY);
                let (tx, rx) = mpsc_channel::<ModuleUpdateEvent<String>>(CHANNEL_CAPACITY);
                let (update_tx, _first_rx) = broadcast_channel::<String>(CHANNEL_CAPACITY);
                let context = WidgetContext::<String> { id, tx, controller_tx, update_tx };
                let pump_update_tx = context.update_tx.clone();
                let interaction_tx = context.controller_tx.clone();
                let bundle = match s.spawn_controller(info, &context, controller_rx) {
                    Ok(b) => b,
                    Err(e) => {
                        return Err(e);
                    },
                };
                let ghost app0 = *app;
                let ghost p0 = *popups;
                let ghost gbundle = bundle;
                app.tasks.push(ControllerBundle::Script(bundle));
                app.pumps.push(UiPump::Script { rx, update_tx: pump_update_tx, interaction_tx });
                proof {
                    assert(app.tasks@[app0.tasks@.len() as int] == ControllerBundle::Script(
                        gbundle,
                    ));
                    assert forall|k: int|
                        app0.tasks@.len() <= k < app.tasks@.len() implies bundle_controller(
                        #[trigger] app.tasks@[k],
                    ).state == crate::controller::ControllerState::Running by {
                        assert(k == app0.tasks@.len() as int);
                    }
                }
                let mut widget = Container::new(info.bar_orientation);
                widget.children.push(
                    BuiltNode {
                        content: BuiltContent::Leaf(Widget::Label),
                        name: None,
                        class: None,
                        width_request: None,
                        height_request: None,
                    },
                );
                proof {
                    assert(app0.tasks@.is_prefix_of(app.tasks@)) by {
                        assert(app0.tasks@ =~= app.tasks@.subrange(0, app0.tasks@.len() as int));
                    }
                    assert(app0.pumps@.is_prefix_of(app.pumps@)) by {
                        assert(app0.pumps@ =~= app.pumps@.subrange(0, app0.pumps@.len() as int));
                    }
                    assert(p0.entries@.is_prefix_of(popups.entries@)) by {
                        assert(p0.entries@ =~= popups.entries@.subrange(
                            0,
                            p0.entries@.len() as int,
                        ));
                    }
                    assert(widget.children@[0] == script_label_node());
                }
                Ok(ModuleParts { widget, popup: None })
            },
        }
    }
}

/// Builds each configuration node in order and appends it to `parent`:
/// realized children keep configuration order, a failed node is
/// reported into `errors` and skipped, and its siblings are unaffected.
pub fn add_widgets(
    cfgs: Vec<WidgetConfig>,
    parent: &mut Container,
    ctx: &CustomWidgetContext,
    info: &ModuleInfo,
    popup_buttons: &mut Vec<BuiltNode>,
    errors: &mut Vec<ConstructionError>,
    app: &mut AppHandle,
    popups: &mut PopupRegistry,
)
    requires
        list_wf(cfgs@),
        old(app).next_id + list_ids(cfgs@) <= usize::MAX,
        old(popups).wf(),
        popups_bounded(*old(popups), old(app).next_id),
        ctx.bar_orientation == info.bar_orientation,
    ensures
        build_extends(*old(app), *old(popups), *final(app), *final(popups)),
        final(app).next_id <= old(app).next_id + list_ids(cfgs@),
        forall|k: int|
            old(popups).entries@.len() <= k < final(popups).entries@.len() ==> (
            #[trigger] final(popups).entries@[k]).id >= old(app).next_id,
        final(parent).orientation == old(parent).orientation,
        old(parent).children@.is_prefix_of(final(parent).children@),
        list_represents(
            cfgs@,
            ctx.bar_orientation,
            final(parent).children@.skip(old(parent).children@.len() as int),
        ),
        final(errors)@.len() == old(errors)@.len() + bad_count(cfgs@),
        old(errors)@.is_prefix_of(final(errors)@),
        old(popup_buttons)@.is_prefix_of(final(popup_buttons)@),
    decreases list_size(cfgs@),
{
    let ghost cfgs0 = cfgs@;
    let ghost c0 = parent.children@;
    let ghost e0 = errors@;
    let ghost b0 = popup_buttons@;
    let mut cfgs = cfgs;
    if cfgs.len() == 0 {
        proof {
            lemma_extends_refl(*app, *popups);
            assert(parent.children@.skip(c0.len() as int) =~= Seq::<BuiltNode>::empty());
            assert(c0.is_prefix_of(parent.children@)) by {
                assert(c0 =~= parent.children@.subrange(0, c0.len() as int));
            }
            assert(e0.is_prefix_of(errors@)) by {
                assert(e0 =~= errors@.subrange(0, e0.len() as int));
            }
            assert(b0.is_prefix_of(popup_buttons@)) by {
                assert(b0 =~= popup_buttons@.subrange(0, b0.len() as int));
            }
        }
        return;
    }
    let cfg = cfgs.remove(0);
    proof {
        assert(cfg == cfgs0[0]);
        assert(cfgs@ =~= cfgs0.subrange(1, cfgs0.len() as int));
        assert(list_wf(cfgs0));
        assert(list_ids(cfgs0) == wom_ids(cfgs0[0].widget) + list_ids(
            cfgs0.subrange(1, cfgs0.len() as int),
        ));
        assert(list_size(cfgs0) == wc_size(cfgs0[0]) + list_size(
            cfgs0.subrange(1, cfgs0.len() as int),
        ));
        assert(wc_size(cfgs0[0]) == 1 + wom_size(cfgs0[0].widget));
    }
    let WidgetConfig { widget, common } = cfg;
    let ghost app_a = *app;
    let ghost p_a = *popups;
    let r = widget.add_to(parent, common, ctx, info, popup_buttons, app, popups);
    let ghost app_b = *app;
    let ghost p_b = *popups;
    let ghost c_mid = parent.children@;
    match r {
        Ok(_) => {},
        Err(e) => {
            errors.push(e);
        },
    }
    let ghost e_mid = errors@;
    add_widgets(cfgs, parent, ctx, info, popup_buttons, errors, app, popups);
    proof {
        lemma_extends_trans(app_a, p_a, app_b, p_b, *app, *popups);
        assert forall|k: int|
            p_a.entries@.len() <= k < popups.entries@.len() implies (
        #[trigger] popups.entries@[k]).id >= app_a.next_id by {
            if k < p_b.entries@.len() {
                assert(p_b.entries@[k] == popups.entries@[k]);
            } else {
                assert(popups.entries@[k].id >= app_b.next_id);
            }
        }
        // The realized suffix stitches together from this node and the
        // recursive call's suffix.
        let rest = cfgs0.subrange(1, cfgs0.len() as int);
        let suffix = parent.children@.skip(c0.len() as int);
        assert(c_mid.is_prefix_of(parent.children@));
        if wc_constructible(cfgs0[0]) {
            assert(r is Ok);
            assert(c_mid.len() == c0.len() + 1);
            assert(suffix.len() > 0);
            assert(suffix[0] == c_mid[c0.len() as int]);
            assert(node_represents(
                (WidgetConfig { widget: cfgs0[0].widget, common: cfgs0[0].common }),
                ctx.bar_orientation,
                c_mid[c_mid.len() - 1],
            ));
            assert(cfgs0[0] == (WidgetConfig {
                widget: cfgs0[0].widget,
                common: cfgs0[0].common,
            }));
            assert(suffix.subrange(1, suffix.len() as int) =~= parent.children@.skip(
                c_mid.len() as int,
            ));
            assert(list_represents(rest, ctx.bar_orientation, parent.children@.skip(
                c_mid.len() as int,
            )));
            assert(list_represents(cfgs0, ctx.bar_orientation, suffix));
            assert(errors@.len() == e0.len() + bad_count(cfgs0));
        } else {
            assert(r is Err);
            assert(c_mid =~= c0);
            assert(suffix =~= parent.children@.skip(c_mid.len() as int));
            assert(list_represents(cfgs0, ctx.bar_orientation, suffix));
            assert(e_mid.len() == e0.len() + 1);
            assert(errors@.len() == e0.len() + bad_count(cfgs0));
        }
        assert(c0.is_prefix_of(parent.children@)) by {
            assert(c0 =~= parent.children@.subrange(0, c0.len() as int));
        }
        assert(e0.is_prefix_of(errors@)) by {
            assert(e_mid.is_prefix_of(errors@));
            assert(e0 =~= errors@.subrange(0, e0.len() as int));
        }
        assert(b0.is_prefix_of(popup_buttons@)) by {
            assert(b0 =~= popup_buttons@.subrange(0, b0.len() as int));
        }
    }
}

/// Builds a popup container from its optional widget list: always
/// horizontal, empty when nothing is configured. Trigger buttons inside
/// the popup itself are collected and discarded, as only bar widgets
/// can request a popup.
fn build_popup(
    popup: Option<Vec<WidgetConfig>>,
    ctx: &CustomWidgetContext,
    info: &ModuleInfo,
    app: &mut AppHandle,
    popups: &mut PopupRegistry,
) -> (r: Container)
    requires
        opt_wf(popup),
        old(app).next_id + opt_ids(popup) <= usize::MAX,
        old(popups).wf(),
        popups_bounded(*old(popups), old(app).next_id),
        ctx.bar_orientation == info.bar_orientation,
    ensures
        build_extends(*old(app), *old(popups), *final(app), *final(popups)),
        final(app).next_id <= old(app).next_id + opt_ids(popup),
        forall|k: int|
            old(popups).entries@.len() <= k < final(popups).entries@.len() ==> (
            #[trigger] final(popups).entries@[k]).id >= old(app).next_id,
        r.orientation == Orientation::Horizontal,
        popup matches Some(v) ==> list_represents(v@, ctx.bar_orientation, r.children@),
        popup is None ==> r.children@.len() == 0,
    decreases opt_size(popup),
{
    let mut pc = Container::new(Orientation::Horizontal);
    match popup {
        Some(cfgs) => {
            proof {
                assert(opt_size(Some(cfgs)) == 1 + list_size(cfgs@));
            }
            let mut pbuttons: Vec<BuiltNode> = Vec::new();
            let mut perrors: Vec<ConstructionError> = Vec::new();
            add_widgets(cfgs, &mut pc, ctx, info, &mut pbuttons, &mut perrors, app, popups);
            proof {
                assert(pc.children@.skip(0) =~= pc.children@);
            }
        },
        None => {
            proof {
                lemma_extends_refl(*app, *popups);
            }
        },
    }
    pc
}

impl WidgetOrModule {
    /// Realizes one configuration node into `parent`: a widget is
    /// wrapped under the node's common configuration; a module is
    /// instantiated through the factory under a fresh unique id and
    /// wrapped under its own. A module that fails to construct leaves
    /// the parent untouched and hands its error back.
    pub fn add_to(
        self,
        parent: &mut Container,
        common: CommonConfig,
        ctx: &CustomWidgetContext,
        info: &ModuleInfo,
        popup_buttons: &mut Vec<BuiltNode>,
        app: &mut AppHandle,
        popups: &mut PopupRegistry,
    ) -> (r: Result<(), ConstructionError>)
        requires
            wom_wf(self),
            old(app).next_id + wom_ids(self) <= usize::MAX,
            old(popups).wf(),
            popups_bounded(*old(popups), old(app).next_id),
            ctx.bar_orientation == info.bar_orientation,
        ensures
            build_extends(*old(app), *old(popups), *final(app), *final(popups)),
            final(app).next_id <= old(app).next_id + wom_ids(self),
            forall|k: int|
                old(popups).entries@.len() <= k < final(popups).entries@.len() ==> (
                #[trigger] final(popups).entries@[k]).id >= old(app).next_id,
            final(parent).orientation == old(parent).orientation,
            r is Ok <==> wom_constructible(self),
            r is Ok ==> final(parent).children@.len() == old(parent).children@.len() + 1
                && final(parent).children@.subrange(0, old(parent).children@.len() as int) =~= old(
                parent,
            ).children@ && node_represents(
                (WidgetConfig { widget: self, common }),
                ctx.bar_orientation,
                final(parent).children@[final(parent).children@.len() - 1],
            ),
            r is Err ==> final(parent).children@ =~= old(parent).children@,
            r is Err ==> final(popup_buttons)@ =~= old(popup_buttons)@,
            r matches Err(e) ==> e == ConstructionError::EmptyCommand,
            old(popup_buttons)@.is_prefix_of(final(popup_buttons)@),
        decreases wom_size(self),
    {
        let ghost c0 = parent.children@;
        let ghost b0 = popup_buttons@;
        match self {
            WidgetOrModule::Widget(w) => {
                w.add_to(parent, common, ctx, popup_buttons);
                proof {
                    lemma_extends_refl(*app, *popups);
                    assert(parent.children@[parent.children@.len() - 1] == spec_wrap(
                        BuiltContent::Leaf(w),
                        common,
                        ctx.bar_orientation,
                    ));
                    assert(parent.children@.subrange(0, c0.len() as int) =~= c0);
                    assert(b0.is_prefix_of(popup_buttons@)) by {
                        assert(b0 =~= popup_buttons@.subrange(0, b0.len() as int));
                    }
                }
                Ok(())
            },
            WidgetOrModule::Module(mc) => {
                proof {
                    assert(wom_size(WidgetOrModule::Module(mc)) == 1 + mc_size(mc));
                    assert(wom_ids(WidgetOrModule::Module(mc)) == 1 + mc_ids(mc));
                }
                let mcommon = match get_common(&mc) {
                    Some(c) => c,
                    None => {
                        proof {
                            assert(false);
                        }
                        CommonConfig { name: None, class: None, length: None }
                    },
                };
                let ghost app0 = *app;
                let ghost p0 = *popups;
                let id = app.unique_id();
                proof {
                    assert(!popups.spec_registered(id)) by {
                        assert forall|i: int|
                            0 <= i < popups.entries@.len() implies (
                        #[trigger] popups.entries@[i]).id != id by {
                            assert(popups.entries@[i].id < app0.next_id);
                        }
                    }
                }
                let ghost app1 = *app;
                let ghost p1 = *popups;
                match BarModuleFactory::create(mc, id, info, app, popups) {
                    Ok(parts) => {
                        let node = crate::widgets::wrap_widget(
                            BuiltContent::Module { id, widget: parts.widget },
                            mcommon,
                            ctx.bar_orientation,
                        );
                        parent.children.push(node);
                        proof {
                            assert(app0.tasks@ == app1.tasks@ && app0.pumps@ == app1.pumps@);
                            assert(build_extends(app0, p0, app1, p1)) by {
                                assert(app1.tasks@.is_prefix_of(app1.tasks@)) by {
                                    assert(app1.tasks@ =~= app1.tasks@.subrange(
                                        0,
                                        app1.tasks@.len() as int,
                                    ));
                                }
                                assert(app1.pumps@.is_prefix_of(app1.pumps@)) by {
                                    assert(app1.pumps@ =~= app1.pumps@.subrange(
                                        0,
                                        app1.pumps@.len() as int,
                                    ));
                                }
                                assert(p1.entries@.is_prefix_of(p1.entries@)) by {
                                    assert(p1.entries@ =~= p1.entries@.subrange(
                                        0,
                                        p1.entries@.len() as int,
                                    ));
                                }
                            }
                            lemma_extends_trans(app0, p0, app1, p1, *app, *popups);
                            assert forall|k: int|
                                p0.entries@.len() <= k < popups.entries@.len() implies (
                            #[trigger] popups.entries@[k]).id >= app0.next_id by {
                                assert(popups.entries@[k].id >= app1.next_id || popups.entries@[
                                    k
                                ].id == id);
                            }
                            assert(parent.children@.subrange(0, c0.len() as int) =~= c0);
                            assert(node_represents(
                                (WidgetConfig {
                                    widget: WidgetOrModule::Module(mc),
                                    common,
                                }),
                                ctx.bar_orientation,
                                parent.children@[parent.children@.len() - 1],
                            ));
                            assert(b0.is_prefix_of(popup_buttons@)) by {
                                assert(b0 =~= popup_buttons@.subrange(0, b0.len() as int));
                            }
                        }
                        Ok(())
                    },
                    Err(e) => {
                        proof {
                            lemma_extends_trans(app0, p0, app1, p1, *app, *popups);
                            assert(build_extends(app0, p0, app1, p1)) by {
                                assert(app1.tasks@.is_prefix_of(app1.tasks@)) by {
                                    assert(app1.tasks@ =~= app1.tasks@.subrange(
                                        0,
                                        app1.tasks@.len() as int,
                                    ));
                                }
                                assert(app1.pumps@.is_prefix_of(app1.pumps@)) by {
                                    assert(app1.pumps@ =~= app1.pumps@.subrange(
                                        0,
                                        app1.pumps@.len() as int,
                                    ));
                                }
                                assert(p1.entries@.is_prefix_of(p1.entries@)) by {
                                    assert(p1.entries@ =~= p1.entries@.subrange(
                                        0,
                                        p1.entries@.len() as int,
                                    ));
                                }
                            }
                            assert(parent.children@ =~= c0);
                            assert(b0.is_prefix_of(popup_buttons@)) by {
                                assert(b0 =~= popup_buttons@.subrange(0, b0.len() as int));
                            }
                        }
                        Err(e)
                    },
                }
            },
        }
    }
}

} // verus!
