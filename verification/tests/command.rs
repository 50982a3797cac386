use dark_privilege_lib::command::{
    actions_for, join_words, keep_awake_step, paste_action, paste_message, Action, Command,
    KeepAwakeStep, PasteAction,
};

fn names(actions: &[Action]) -> Vec<String> {
    actions.iter().map(|a| format!("{:?}", a)).collect()
}

#[test]
fn all_runs_every_report_in_order() {
    let all = actions_for(Some(Command::All));
    assert_eq!(names(&all), vec!["Winver", "Sysinfo", "Whoami", "Privileges"]);
    let mut singles = Vec::new();
    for c in [Command::Winver, Command::Sysinfo, Command::Whoami, Command::Privileges] {
        singles.extend(names(&actions_for(Some(c))));
    }
    assert_eq!(names(&all), singles);
}

#[test]
fn single_commands_run_one_action() {
    assert_eq!(names(&actions_for(Some(Command::Version))), vec!["PrintVersion"]);
    assert_eq!(
        names(&actions_for(Some(Command::KeepAwake { active: true }))),
        vec!["KeepAwake { active: true }"]
    );
    let paste = actions_for(Some(Command::Paste { message: Some(vec!["hi".to_string()]) }));
    assert_eq!(paste.len(), 1);
    match &paste[0] {
        Action::Paste { message } => assert_eq!(message, &Some(vec!["hi".to_string()])),
        other => panic!("unexpected {:?}", other),
    }
}

#[test]
fn no_command_runs_nothing() {
    assert!(actions_for(None).is_empty());
}

#[test]
fn joins_words_with_spaces() {
    let words = vec!["hello".to_string(), "there".to_string(), "world".to_string()];
    assert_eq!(join_words(&words), "hello there world");
    assert_eq!(join_words(&vec!["one".to_string()]), "one");
    assert_eq!(join_words(&vec![]), "");
    assert_eq!(join_words(&vec!["".to_string(), "".to_string()]), " ");
}

#[test]
fn paste_message_from_words_or_stdin() {
    assert_eq!(
        paste_message(&Some(vec!["ls".to_string(), "-la".to_string()])),
        Some("ls -la".to_string())
    );
    assert_eq!(paste_message(&None), None);
}

#[test]
fn paste_clicks_into_found_window() {
    assert_eq!(paste_action(Some(42)), PasteAction::ClickAndType { window: 42 });
    assert_eq!(paste_action(None), PasteAction::NoWindow);
}

#[test]
fn keep_awake_exits_only_on_signal() {
    assert_eq!(keep_awake_step(false), KeepAwakeStep::KeepWaiting);
    assert_eq!(keep_awake_step(true), KeepAwakeStep::Exit);
}
