use barmods::command::{interpret, split_tokens, str_eq, Command};

fn strings(v: &[&str]) -> Vec<String> {
    v.iter().map(|s| String::from(*s)).collect()
}

#[test]
fn exec_prefix_splits_program_and_embedded_args() {
    let c = interpret("!echo hello", &strings(&["world"]));
    match c {
        Command::Execute { program, args } => {
            assert_eq!(program, "echo");
            assert_eq!(args, strings(&["hello", "world"]));
        }
        _ => panic!("expected an execute command"),
    }
}

#[test]
fn exec_with_multiple_spaces_drops_empty_tokens() {
    let c = interpret("!run  a   b ", &strings(&[]));
    match c {
        Command::Execute { program, args } => {
            assert_eq!(program, "run");
            assert_eq!(args, strings(&["a", "b"]));
        }
        _ => panic!("expected an execute command"),
    }
}

#[test]
fn exec_without_embedded_args_passes_supplied_list_verbatim() {
    let c = interpret("!notify-send", &strings(&["title", "body text"]));
    match c {
        Command::Execute { program, args } => {
            assert_eq!(program, "notify-send");
            assert_eq!(args, strings(&["title", "body text"]));
        }
        _ => panic!("expected an execute command"),
    }
}

#[test]
fn bare_bang_is_invalid() {
    let c = interpret("!", &strings(&[]));
    assert!(matches!(c, Command::Invalid { .. }));
    let c = interpret("!   ", &strings(&[]));
    assert!(matches!(c, Command::Invalid { .. }));
}

#[test]
fn popup_directives_are_exact_strings() {
    assert!(matches!(interpret("popup:toggle", &strings(&[])), Command::TogglePopup));
    assert!(matches!(interpret("popup:open", &strings(&[])), Command::OpenPopup));
    assert!(matches!(interpret("popup:close", &strings(&[])), Command::ClosePopup));
    // Case matters for directives; anything else is invalid.
    assert!(matches!(
        interpret("POPUP:TOGGLE", &strings(&[])),
        Command::Invalid { .. }
    ));
    assert!(matches!(
        interpret("popup:toggle ", &strings(&[])),
        Command::Invalid { .. }
    ));
}

#[test]
fn unknown_commands_are_invalid_and_kept() {
    match interpret("frobnicate", &strings(&[])) {
        Command::Invalid { command } => assert_eq!(command, "frobnicate"),
        _ => panic!("expected an invalid command"),
    }
}

#[test]
fn split_tokens_on_plain_strings() {
    assert_eq!(split_tokens("a  b"), strings(&["a", "b"]));
    assert_eq!(split_tokens("  "), strings(&[]));
    assert_eq!(split_tokens(""), strings(&[]));
    assert_eq!(split_tokens("one"), strings(&["one"]));
    assert_eq!(split_tokens(" lead mid  trail "), strings(&["lead", "mid", "trail"]));
}

#[test]
fn str_eq_compares_content() {
    assert!(str_eq("abc", "abc"));
    assert!(!str_eq("abc", "abd"));
    assert!(!str_eq("abc", "abcd"));
    assert!(str_eq("", ""));
}
