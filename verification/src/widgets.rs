//! The model of built UI nodes.
//!
//! Leaf rendering (how a label or slider draws) is a collaborator outside
//! this crate; what the composition machinery owns — and what is modelled
//! here — is which node stands where, under which name and class, and
//! which size constraint the bar's orientation imposes on it.

use crate::orientation::Orientation;
use vstd::prelude::*;

verus! {

/// Presentation options shared by every widget and module kind.
#[derive(Debug, Clone)]
pub struct CommonConfig {
    pub name: Option<String>,
    pub class: Option<String>,
    pub length: Option<i32>,
}

/// The kinds of primitive widget a configuration node can name.
#[derive(Debug, Clone, Copy, PartialEq, Eq, Structural)]
pub enum Widget {
    Box,
    Label,
    Button,
    Image,
    Slider,
    Progress,
}

/// What a built node holds: a primitive widget, or a nested module's
/// whole container, keyed by the module's unique id.
#[derive(Debug)]
pub enum BuiltContent {
    Leaf(Widget),
    Module { id: usize, widget: Container },
}

/// One realized child of a container, with its applied presentation.
#[derive(Debug)]
pub struct BuiltNode {
    pub content: BuiltContent,
    pub name: Option<String>,
    pub class: Option<String>,
    pub width_request: Option<i32>,
    pub height_request: Option<i32>,
}

/// A container widget: an ordered row or column of built nodes.
#[derive(Debug)]
pub struct Container {
    pub orientation: Orientation,
    pub children: Vec<BuiltNode>,
}

impl Container {
    /// An empty container laid out along `orientation`.
    pub fn new(orientation: Orientation) -> (r: Container)
        ensures
            r.orientation == orientation,
            r.children@ =~= Seq::<BuiltNode>::empty(),
    {
        Container { orientation, children: Vec::new() }
    }
}

/// Sets the widget length, as a width request under a horizontal bar and
/// a height request under a vertical one — never both.
pub fn set_length(node: &mut BuiltNode, length: i32, bar_orientation: Orientation)
    ensures
        bar_orientation == Orientation::Horizontal ==> final(node).width_request == Some(length)
            && final(node).height_request == old(node).height_request,
        bar_orientation == Orientation::Vertical ==> final(node).height_request == Some(length)
            && final(node).width_request == old(node).width_request,
        final(node).content == old(node).content,
        final(node).name == old(node).name,
        final(node).class == old(node).class,
{
    match bar_orientation {
        Orientation::Horizontal => node.width_request = Some(length),
        Orientation::Vertical => node.height_request = Some(length),
    }
}

/// The node that wrapping `content` under `common` yields: name and class
/// are taken over, and a requested length becomes the one size constraint
/// the bar orientation calls for.
pub open spec fn spec_wrap(content: BuiltContent, common: CommonConfig, orientation: Orientation) -> BuiltNode {
    BuiltNode {
        content,
        name: common.name,
        class: common.class,
        width_request: if common.length is Some && orientation == Orientation::Horizontal {
            common.length
        } else {
            None
        },
        height_request: if common.length is Some && orientation == Orientation::Vertical {
            common.length
        } else {
            None
        },
    }
}

/// Wraps freshly built content into a node carrying the common
/// presentation options.
pub fn wrap_widget(content: BuiltContent, common: CommonConfig, orientation: Orientation) -> (r:
    BuiltNode)
    ensures
        r == spec_wrap(content, common, orientation),
{
    let length = common.length;
    let mut node = BuiltNode {
        content,
        name: common.name,
        class: common.class,
        width_request: None,
        height_request: None,
    };
    if let Some(l) = length {
        set_length(&mut node, l, orientation);
    }
    node
}

} // verus!
