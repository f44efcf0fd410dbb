use zsh_histdb_skim::cli::{parse_invocation, report_result, report_version, Invocation};
use zsh_histdb_skim::history::History;
use zsh_histdb_skim::location::Location;
use zsh_histdb_skim::selection::{
    classify_key, get_starting_location, process_result, Controller, Key, KeyAction,
    SelectionResult, SelectorOutput,
};

fn record(cmd: &str) -> History {
    History::from_row(
        5,
        cmd.to_string(),
        1_700_000_000,
        Some(0),
        Some(1),
        1,
        1,
        "h1".to_string(),
        "/x".to_string(),
    )
}

fn output(key: Key, selected: Option<&str>, query: &str) -> SelectorOutput {
    SelectorOutput { final_key: key, selected: selected.map(record), query: query.to_string() }
}

#[test]
fn scope_cycle_has_four_steps() {
    assert_eq!(Location::Session.next(), Location::Directory);
    assert_eq!(Location::Directory.next(), Location::Machine);
    assert_eq!(Location::Machine.next(), Location::Everywhere);
    assert_eq!(Location::Everywhere.next(), Location::Session);
    for scope in [Location::Session, Location::Directory, Location::Machine, Location::Everywhere] {
        assert_ne!(scope.next(), scope);
        assert_eq!(scope.next().next().next().next(), scope);
    }
}

#[test]
fn starting_scope_depends_on_the_session_id() {
    assert_eq!(get_starting_location("12"), Location::Session);
    assert_eq!(get_starting_location("not a number"), Location::Session);
    assert_eq!(get_starting_location(""), Location::Directory);
}

#[test]
fn controller_starts_grouped() {
    let state = Controller::new("12", "git".to_string());
    assert_eq!(state.location, Location::Session);
    assert!(state.grouped);
    assert_eq!(state.query, "git");
    let state = Controller::new("", String::new());
    assert_eq!(state.location, Location::Directory);
    assert!(state.grouped);
    assert_eq!(state.query, "");
}

#[test]
fn keys_have_their_meaning() {
    assert_eq!(classify_key(Key::ESC), KeyAction::Abort);
    assert_eq!(classify_key(Key::Ctrl('c')), KeyAction::Abort);
    assert_eq!(classify_key(Key::Ctrl('d')), KeyAction::Abort);
    assert_eq!(classify_key(Key::Ctrl('z')), KeyAction::Abort);
    assert_eq!(classify_key(Key::Enter), KeyAction::Confirm);
    assert_eq!(classify_key(Key::F(1)), KeyAction::SetScope(Location::Session));
    assert_eq!(classify_key(Key::F(2)), KeyAction::SetScope(Location::Directory));
    assert_eq!(classify_key(Key::F(3)), KeyAction::SetScope(Location::Machine));
    assert_eq!(classify_key(Key::F(4)), KeyAction::SetScope(Location::Everywhere));
    assert_eq!(classify_key(Key::F(5)), KeyAction::ToggleGrouping);
    assert_eq!(classify_key(Key::Ctrl('r')), KeyAction::CycleScope);
    assert_eq!(classify_key(Key::F(0)), KeyAction::Nothing);
    assert_eq!(classify_key(Key::F(6)), KeyAction::Nothing);
    assert_eq!(classify_key(Key::Ctrl('x')), KeyAction::Nothing);
    assert_eq!(classify_key(Key::Other), KeyAction::Nothing);
}

#[test]
fn abort_key_ends_with_aborted() {
    for key in [Key::ESC, Key::Ctrl('c'), Key::Ctrl('d'), Key::Ctrl('z')] {
        let mut state = Controller::new("1", "gi".to_string());
        let outcome = state.advance(output(key, Some("git status"), "git"));
        assert_eq!(outcome, Some(Err("Aborted".to_string())));
        let report = report_result(outcome.unwrap());
        assert_eq!(report.status, 1);
        assert_eq!(report.stderr, Some("Aborted".to_string()));
        assert_eq!(report.stdout, None);
        assert_eq!(state.location, Location::Session);
        assert!(state.grouped);
        assert_eq!(state.query, "gi");
    }
}

#[test]
fn confirm_without_selection_returns_the_query() {
    let mut state = Controller::new("1", String::new());
    let outcome = state.advance(output(Key::Enter, None, "foo"));
    assert_eq!(outcome, Some(Ok("foo".to_string())));
    let report = report_result(outcome.unwrap());
    assert_eq!(report.status, 0);
    assert_eq!(report.stdout, Some("foo".to_string()));
    assert_eq!(report.stderr, None);
}

#[test]
fn confirm_without_selection_and_empty_query_returns_empty_text() {
    let mut state = Controller::new("1", "x".to_string());
    assert_eq!(state.advance(output(Key::Enter, None, "")), Some(Ok(String::new())));
}

#[test]
fn confirm_with_selection_returns_the_command() {
    let mut state = Controller::new("1", String::new());
    let outcome = state.advance(output(Key::Enter, Some("ls -la"), "ls"));
    assert_eq!(outcome, Some(Ok("ls -la".to_string())));
    let report = report_result(outcome.unwrap());
    assert_eq!(report.status, 0);
    assert_eq!(report.stdout, Some("ls -la".to_string()));
}

#[test]
fn scope_keys_set_the_scope_and_loop() {
    for (n, scope) in [
        (1, Location::Session),
        (2, Location::Directory),
        (3, Location::Machine),
        (4, Location::Everywhere),
    ] {
        let mut state = Controller::new("1", String::new());
        state.location = Location::Machine;
        assert_eq!(state.advance(output(Key::F(n), Some("ls"), "abc")), None);
        assert_eq!(state.location, scope);
        assert!(state.grouped);
        assert_eq!(state.query, "abc");
    }
}

#[test]
fn cycle_key_walks_through_the_scopes() {
    let mut state = Controller::new("1", String::new());
    let mut visited = vec![state.location];
    for _ in 0..4 {
        assert_eq!(state.advance(output(Key::Ctrl('r'), None, "q")), None);
        visited.push(state.location);
    }
    assert_eq!(
        visited,
        vec![
            Location::Session,
            Location::Directory,
            Location::Machine,
            Location::Everywhere,
            Location::Session,
        ]
    );
}

#[test]
fn grouping_key_toggles() {
    let mut state = Controller::new("1", String::new());
    assert_eq!(state.advance(output(Key::F(5), None, "")), None);
    assert!(!state.grouped);
    assert_eq!(state.location, Location::Session);
    assert_eq!(state.advance(output(Key::F(5), None, "")), None);
    assert!(state.grouped);
}

#[test]
fn other_keys_keep_settings_and_take_the_query() {
    let mut state = Controller::new("", "old".to_string());
    state.grouped = false;
    for key in [Key::Other, Key::F(9), Key::Ctrl('a')] {
        assert_eq!(state.advance(output(key, Some("ls"), "new")), None);
        assert_eq!(state.location, Location::Directory);
        assert!(!state.grouped);
        assert_eq!(state.query, "new");
    }
}

#[test]
fn process_result_reads_each_case() {
    let mut loc = Location::Directory;
    let mut grouped = true;
    assert!(matches!(process_result(&None, &mut loc, &mut grouped), SelectionResult::Continue));
    assert_eq!((loc, grouped), (Location::Directory, true));

    let abort = Some(output(Key::ESC, Some("ls"), "l"));
    assert!(matches!(process_result(&abort, &mut loc, &mut grouped), SelectionResult::Abort));

    let chosen = Some(output(Key::Enter, Some("ls -la"), "l"));
    match process_result(&chosen, &mut loc, &mut grouped) {
        SelectionResult::Command(command) => assert_eq!(command, "ls -la"),
        _ => panic!("expected a command"),
    }

    let empty = Some(output(Key::Enter, None, "l"));
    assert!(matches!(process_result(&empty, &mut loc, &mut grouped), SelectionResult::NullCommand));
    assert_eq!((loc, grouped), (Location::Directory, true));

    let cycle = Some(output(Key::Ctrl('r'), None, "l"));
    assert!(matches!(process_result(&cycle, &mut loc, &mut grouped), SelectionResult::Continue));
    assert_eq!((loc, grouped), (Location::Machine, true));

    let toggle = Some(output(Key::F(5), None, "l"));
    assert!(matches!(process_result(&toggle, &mut loc, &mut grouped), SelectionResult::Continue));
    assert_eq!((loc, grouped), (Location::Machine, false));

    let everywhere = Some(output(Key::F(4), None, "l"));
    assert!(matches!(process_result(&everywhere, &mut loc, &mut grouped), SelectionResult::Continue));
    assert_eq!((loc, grouped), (Location::Everywhere, false));
}

#[test]
fn version_argument_prints_the_version_and_fails() {
    let args = vec!["zsh-histdb-skim".to_string(), "--version".to_string()];
    assert!(matches!(parse_invocation(&args), Invocation::Version));
    let report = report_version();
    assert_eq!(report.stdout, Some("v0.8.17".to_string()));
    assert_eq!(report.stderr, None);
    assert_eq!(report.status, 1);
}

#[test]
fn first_argument_is_the_query() {
    let args = vec!["prog".to_string(), "git".to_string(), "--version".to_string()];
    match parse_invocation(&args) {
        Invocation::Search(query) => assert_eq!(query, "git"),
        Invocation::Version => panic!("not a version request"),
    }
    match parse_invocation(&vec!["prog".to_string()]) {
        Invocation::Search(query) => assert_eq!(query, ""),
        Invocation::Version => panic!("not a version request"),
    }
    match parse_invocation(&Vec::new()) {
        Invocation::Search(query) => assert_eq!(query, ""),
        Invocation::Version => panic!("not a version request"),
    }
    match parse_invocation(&vec!["prog".to_string(), "--version ".to_string()]) {
        Invocation::Search(query) => assert_eq!(query, "--version "),
        Invocation::Version => panic!("not a version request"),
    }
}
