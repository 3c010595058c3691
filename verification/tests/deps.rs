use shell_scene::deps::check_requirements;
use shell_scene::deps::have;
use shell_scene::deps::optional_warnings;
use shell_scene::deps::require_cmds;
use shell_scene::deps::required_commands;
use shell_scene::deps::warn_optionals;
use shell_scene::deps::NO_BROWSER_OPENER;
use shell_scene::deps::NO_HTTP_PROBE;
use shell_scene::deps::NO_SOCKET_LISTER;

#[test]
fn three_programs_are_required() {
    assert_eq!(required_commands(), vec!["ttyd", "tmux", "asciinema"]);
}

#[test]
fn all_found_is_no_error() {
    assert_eq!(check_requirements(&required_commands(), &vec![true, true, true]), Ok(()));
    assert_eq!(check_requirements(&Vec::new(), &Vec::new()), Ok(()));
}

#[test]
fn missing_programs_are_reported_in_order() {
    assert_eq!(
        check_requirements(&required_commands(), &vec![false, true, false]),
        Err(vec![
            "Missing required command: ttyd".to_string(),
            "Missing required command: asciinema".to_string(),
            "Please install all required dependencies.".to_string(),
        ])
    );
}

#[test]
fn one_missing_program_is_enough() {
    assert_eq!(
        check_requirements(&required_commands(), &vec![true, false, true]),
        Err(vec![
            "Missing required command: tmux".to_string(),
            "Please install all required dependencies.".to_string(),
        ])
    );
}

#[test]
fn program_without_an_answer_counts_as_missing() {
    assert_eq!(
        check_requirements(&required_commands(), &vec![true, true]),
        Err(vec![
            "Missing required command: asciinema".to_string(),
            "Please install all required dependencies.".to_string(),
        ])
    );
}

#[test]
fn unknown_program_is_not_found() {
    assert!(!have("no-such-program-e3b0c44298fc1c14"));
}

#[test]
fn unknown_program_fails_the_requirement() {
    let cmds = vec!["no-such-program-e3b0c44298fc1c14".to_string()];
    assert_eq!(
        require_cmds(&cmds),
        Err(vec![
            "Missing required command: no-such-program-e3b0c44298fc1c14".to_string(),
            "Please install all required dependencies.".to_string(),
        ])
    );
}

#[test]
fn nothing_required_is_always_met() {
    assert_eq!(require_cmds(&Vec::new()), Ok(()));
}

#[test]
fn no_warning_where_every_helper_is_found() {
    assert_eq!(optional_warnings(true, true, true), Vec::<String>::new());
}

#[test]
fn each_missing_helper_has_its_warning() {
    assert_eq!(
        optional_warnings(false, true, true),
        vec!["Neither 'curl' nor 'nc' found; readiness check uses a built-in TCP connect."]
    );
    assert_eq!(
        optional_warnings(true, false, true),
        vec!["Neither 'ss' nor 'netstat' found; using bind-probe to find a free port."]
    );
    assert_eq!(
        optional_warnings(true, true, false),
        vec!["'xdg-open' not found; not opening a browser automatically."]
    );
}

#[test]
fn warnings_keep_their_order() {
    assert_eq!(
        optional_warnings(false, false, false),
        vec![NO_HTTP_PROBE, NO_SOCKET_LISTER, NO_BROWSER_OPENER]
    );
    assert_eq!(optional_warnings(false, true, false), vec![NO_HTTP_PROBE, NO_BROWSER_OPENER]);
}

#[test]
fn warnings_of_this_machine_are_known_ones_in_order() {
    let known = [NO_HTTP_PROBE, NO_SOCKET_LISTER, NO_BROWSER_OPENER];
    let got = warn_optionals();
    let mut from: usize = 0;
    for line in got.iter() {
        let at = known[from..].iter().position(|k| k == line);
        assert!(at.is_some(), "unexpected warning {:?}", line);
        from += at.unwrap() + 1;
    }
}
