use barmods::orientation::Orientation;
use barmods::popup::{PopupEntry, PopupRegistry};
use barmods::widgets::Container;

fn entry(id: usize) -> PopupEntry {
    PopupEntry { id, content: Container::new(Orientation::Horizontal), buttons: Vec::new() }
}

fn registry_with(ids: &[usize]) -> PopupRegistry {
    let mut reg = PopupRegistry::new();
    for id in ids {
        reg.register(entry(*id));
    }
    reg
}

#[test]
fn toggle_opens_then_closes() {
    let mut reg = registry_with(&[7]);
    assert_eq!(reg.visible, None);
    assert!(reg.toggle(7));
    assert_eq!(reg.visible, Some(7));
    assert!(!reg.toggle(7));
    assert_eq!(reg.visible, None);
}

#[test]
fn open_hides_the_previously_visible_popup() {
    let mut reg = registry_with(&[1, 2]);
    assert!(reg.open(2));
    assert_eq!(reg.visible, Some(2));
    assert!(reg.open(1));
    // Exactly one visible: the old one is hidden by the same step.
    assert_eq!(reg.visible, Some(1));
}

#[test]
fn open_same_id_twice_keeps_it_visible() {
    let mut reg = registry_with(&[3]);
    assert!(reg.open(3));
    assert!(reg.open(3));
    assert_eq!(reg.visible, Some(3));
}

#[test]
fn open_unregistered_id_changes_nothing() {
    let mut reg = registry_with(&[4]);
    assert!(reg.open(4));
    assert!(!reg.open(99));
    assert_eq!(reg.visible, Some(4));
}

#[test]
fn close_without_open_popup_is_a_noop() {
    let mut reg = registry_with(&[5]);
    reg.close();
    assert_eq!(reg.visible, None);
    assert!(reg.open(5));
    reg.close();
    assert_eq!(reg.visible, None);
}

#[test]
fn toggle_while_another_popup_is_visible_switches_to_it() {
    let mut reg = registry_with(&[1, 2]);
    assert!(reg.open(2));
    assert!(reg.toggle(1));
    assert_eq!(reg.visible, Some(1));
}

#[test]
fn registered_reports_exactly_the_registered_ids() {
    let reg = registry_with(&[10, 20]);
    assert!(reg.registered(10));
    assert!(reg.registered(20));
    assert!(!reg.registered(30));
}
