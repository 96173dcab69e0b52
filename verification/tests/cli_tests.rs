use strikeface::cli::parse_args;

fn args(items: &[&str]) -> Vec<String> {
    items.iter().map(|s| s.to_string()).collect()
}

#[test]
fn no_arguments_keep_defaults() {
    let line = parse_args(&args(&[]), "tau".to_string());
    assert_eq!(line.user, "tau");
    assert_eq!(line.session, None);
}

#[test]
fn session_and_user_are_read() {
    let line = parse_args(&args(&["--session", "niri", "--user", "bob"]), "tau".to_string());
    assert_eq!(line.user, "bob");
    assert_eq!(line.session, Some("niri".to_string()));
    let short = parse_args(&args(&["-u", "eve"]), "tau".to_string());
    assert_eq!(short.user, "eve");
}

#[test]
fn unknown_arguments_are_ignored() {
    let line = parse_args(&args(&["--loop", "x", "-u", "ann", "--greetd"]), String::new());
    assert_eq!(line.user, "ann");
    assert_eq!(line.session, None);
}

#[test]
fn trailing_flags_without_values() {
    let line = parse_args(&args(&["--session", "sway", "--session"]), "tau".to_string());
    assert_eq!(line.session, None);
    let line = parse_args(&args(&["--user"]), "tau".to_string());
    assert_eq!(line.user, "tau");
}

#[test]
fn flag_values_are_not_read_as_flags() {
    let line = parse_args(&args(&["--user", "--session", "niri"]), "tau".to_string());
    assert_eq!(line.user, "--session");
    assert_eq!(line.session, None);
}
