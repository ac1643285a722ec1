use barmods::orientation::{try_get_orientation, ConfigError, Orientation};
use barmods::widgets::{set_length, wrap_widget, BuiltContent, BuiltNode, CommonConfig, Widget};

#[test]
fn horizontal_spellings_parse() {
    for s in ["horizontal", "Horizontal", "h", "H", "HORIZONTAL", "hOrIzOnTaL"] {
        assert_eq!(try_get_orientation(s), Ok(Orientation::Horizontal), "input {s:?}");
    }
}

#[test]
fn vertical_spellings_parse() {
    for s in ["vertical", "Vertical", "V", "v", "VERTICAL"] {
        assert_eq!(try_get_orientation(s), Ok(Orientation::Vertical), "input {s:?}");
    }
}

#[test]
fn other_strings_are_rejected() {
    for s in ["", "frobnicate", "hh", "horizontal ", " h", "horizonta", "vert", "h0rizontal"] {
        assert_eq!(
            try_get_orientation(s),
            Err(ConfigError::InvalidOrientation),
            "input {s:?}"
        );
    }
}

fn bare_node() -> BuiltNode {
    BuiltNode {
        content: BuiltContent::Leaf(Widget::Label),
        name: None,
        class: None,
        width_request: None,
        height_request: None,
    }
}

#[test]
fn set_length_horizontal_sets_width_only() {
    let mut node = bare_node();
    set_length(&mut node, 120, Orientation::Horizontal);
    assert_eq!(node.width_request, Some(120));
    assert_eq!(node.height_request, None);
}

#[test]
fn set_length_vertical_sets_height_only() {
    let mut node = bare_node();
    set_length(&mut node, 48, Orientation::Vertical);
    assert_eq!(node.width_request, None);
    assert_eq!(node.height_request, Some(48));
}

#[test]
fn wrap_widget_applies_common_presentation() {
    let common = CommonConfig {
        name: Some(String::from("clock-area")),
        class: Some(String::from("dimmed")),
        length: Some(200),
    };
    let node = wrap_widget(BuiltContent::Leaf(Widget::Box), common, Orientation::Horizontal);
    assert!(matches!(node.content, BuiltContent::Leaf(Widget::Box)));
    assert_eq!(node.name.as_deref(), Some("clock-area"));
    assert_eq!(node.class.as_deref(), Some("dimmed"));
    assert_eq!(node.width_request, Some(200));
    assert_eq!(node.height_request, None);
}

#[test]
fn wrap_widget_without_length_requests_nothing() {
    let common = CommonConfig { name: None, class: None, length: None };
    let node = wrap_widget(BuiltContent::Leaf(Widget::Image), common, Orientation::Vertical);
    assert_eq!(node.width_request, None);
    assert_eq!(node.height_request, None);
}
