use fsearch::{
    action_step, new_plugin_action, replace_placeholders, split_words, ActionStep, PluginActionType,
};

fn step(a: PluginActionType) -> ActionStep {
    action_step(&new_plugin_action(a, None))
}

#[test]
fn words_split_on_white_space() {
    assert_eq!(split_words("  ls  -la\t/tmp \n"), vec!["ls", "-la", "/tmp"]);
    assert!(split_words("   ").is_empty());
    assert_eq!(split_words("one"), vec!["one"]);
}

#[test]
fn placeholders_are_dropped() {
    assert_eq!(replace_placeholders("firefox %u --new %U".to_string()), "firefox --new");
    assert_eq!(replace_placeholders("  a   b ".to_string()), "a b");
    assert_eq!(replace_placeholders("%f".to_string()), "");
}

#[test]
fn action_steps() {
    assert!(matches!(step(PluginActionType::Exit), ActionStep::Quit));
    assert!(matches!(step(PluginActionType::Open("  /tmp/x".into())), ActionStep::OpenTarget(t) if t == "/tmp/x"));
    assert!(matches!(step(PluginActionType::Open("a ".into())), ActionStep::OpenTarget(t) if t == "a"));
    assert!(matches!(step(PluginActionType::Open("\thttps://x.org \n".into())), ActionStep::OpenTarget(t) if t == "https://x.org"));
    assert!(matches!(step(PluginActionType::Copy(" 4 ".into())), ActionStep::CopyText(t) if t == " 4 "));
    match step(PluginActionType::Launch("gimp %F -n".into())) {
        ActionStep::Spawn(argv) => assert_eq!(argv, vec!["gimp", "-n"]),
        other => panic!("unexpected {:?}", other),
    }
    match step(PluginActionType::RunCmd("notify-send hi".into())) {
        ActionStep::Spawn(argv) => assert_eq!(argv, vec!["notify-send", "hi"]),
        other => panic!("unexpected {:?}", other),
    }
    assert!(matches!(step(PluginActionType::RunCmd("   ".into())), ActionStep::Nothing));
    assert!(matches!(step(PluginActionType::RunScript("s".into())), ActionStep::Nothing));
}

#[test]
fn only_latest_query_is_current() {
    let mut s = fsearch::Session::new();
    let first = s.begin().unwrap();
    assert!(s.is_current(first));
    let second = s.begin().unwrap();
    assert!(!s.is_current(first));
    assert!(s.is_current(second));
    assert_ne!(first, second);
}
