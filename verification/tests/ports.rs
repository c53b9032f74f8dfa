use midi_recorder::ports::select_port;

fn names(list: &[&str]) -> Vec<String> {
    list.iter().map(|s| s.to_string()).collect()
}

#[test]
fn first_port_with_the_prefix_is_selected() {
    let ports = names(&["Midi Through", "Keyboard A", "Keyboard B"]);
    assert_eq!(select_port(&ports, "Keyboard"), Some(1));
    assert_eq!(select_port(&ports, "Keyboard B"), Some(2));
    assert_eq!(select_port(&ports, "Midi"), Some(0));
}

#[test]
fn no_port_with_the_prefix() {
    let ports = names(&["Midi Through", "Keyboard A"]);
    assert_eq!(select_port(&ports, "Piano"), None);
    assert_eq!(select_port(&ports, "keyboard"), None);
    assert_eq!(select_port(&ports, "Keyboard AB"), None);
    assert_eq!(select_port(&Vec::new(), "Keyboard"), None);
}

#[test]
fn white_space_around_the_prefix_is_dropped() {
    let ports = names(&["Midi Through", "Keyboard A"]);
    assert_eq!(select_port(&ports, "  Keyboard \t\n"), Some(1));
    assert_eq!(select_port(&ports, "\u{3000}Keyboard\u{A0}\u{2003}"), Some(1));
    assert_eq!(select_port(&ports, " Midi Through "), Some(0));
}

#[test]
fn white_space_inside_the_prefix_stays() {
    let ports = names(&["KeyboardA", "Keyboard A"]);
    assert_eq!(select_port(&ports, " Keyboard A "), Some(1));
}

#[test]
fn an_empty_prefix_selects_the_first_port() {
    let ports = names(&["Midi Through", "Keyboard A"]);
    assert_eq!(select_port(&ports, ""), Some(0));
    assert_eq!(select_port(&ports, "   "), Some(0));
    assert_eq!(select_port(&Vec::new(), ""), None);
}

#[test]
fn the_name_itself_is_not_trimmed() {
    let ports = names(&["  Keyboard A"]);
    assert_eq!(select_port(&ports, "Keyboard"), None);
}

#[test]
fn characters_that_are_no_white_space_are_kept() {
    let ports = names(&["Keyboard", "\u{200B}Keyboard"]);
    assert_eq!(select_port(&ports, "\u{200B}Keyboard"), Some(1));
}
