use fsearch::{
    command, config_dir, describe_file, detect_input_type, exec, expand_home, expression_of,
    fan_out, file_target, format_size, get_exec, get_scripts_dir, is_plugin_file,
    mathematical, new_plugin_action, plugin_contribution, plugin_payload, plugin_queries,
    resolve_command, select_entries, select_scored, url, AppEntry, ConfigArgs, DataType,
    Element, ElementBuilder, FileInfo, InputType, Look, Observed, PluginActionType,
    PluginConfig, PluginResponse,
};

fn plugin(name: &str, any: Option<bool>) -> PluginConfig {
    PluginConfig {
        name: name.to_string(),
        description: format!("{} plugin", name),
        cmd: format!("/usr/bin/{}", name),
        run_on_any_query: any,
        priority: None,
        dev: None,
    }
}

fn label(text: &str) -> Element {
    ElementBuilder::new(DataType::Label).text(text).build()
}

fn reply(texts: &[&str], action: Option<PluginActionType>, icon: Option<&str>) -> PluginResponse {
    PluginResponse {
        title: None,
        elements: texts.iter().map(|t| label(t)).collect(),
        action: action.map(|a| new_plugin_action(a, None)),
        error: None,
        set_icon: icon.map(|i| i.to_string()),
    }
}

fn observed(evaluation: Result<String, String>, responses: Vec<Option<PluginResponse>>) -> Observed {
    Observed { evaluation, responses, home: None, file: FileInfo::Unreadable }
}

fn kids(e: &Element) -> &Vec<Element> {
    e.children.as_ref().unwrap()
}

/// Title and body of a section element.
fn section_parts(e: &Element) -> (String, &[Element]) {
    let inner = &kids(e)[0];
    let all = kids(inner);
    (all[0].text.clone().unwrap(), &all[1..])
}

fn text(e: &Element) -> String {
    e.text.clone().unwrap()
}

fn action_of(r: &PluginResponse) -> Option<&PluginActionType> {
    r.action.as_ref().map(|a| &a.action)
}

#[test]
fn web_address_opens_with_scheme() {
    assert!(matches!(detect_input_type("https://example.com/a", false), InputType::Url));
    assert!(matches!(detect_input_type("http://x", true), InputType::Url));
    let r = exec("https://example.com/a".to_string(), &vec![], observed(Ok("1".into()), vec![]));
    match action_of(&r) {
        Some(PluginActionType::Open(s)) => assert_eq!(s, "https://example.com/a"),
        other => panic!("unexpected {:?}", other),
    }
    assert_eq!(r.elements.len(), 1);
    let (title, body) = section_parts(&r.elements[0]);
    assert_eq!(title, "Url");
    assert_eq!(text(&body[0]), "open https://example.com/a");
    assert_eq!(r.elements[0].id, "Section");
    assert_eq!(kids(&r.elements[0])[0].id, "BoxContent");
    assert_eq!(kids(&kids(&r.elements[0])[0])[0].id, "SectionTitle");
    assert_eq!(body[0].id, "Content");
    assert_eq!(body[0].classes, vec!["url".to_string()]);
    assert_eq!(body[0].wrap, Some(true));
}

#[test]
fn file_scheme_stripped_once() {
    match detect_input_type("file:///tmp/a", false) {
        InputType::File(p) => assert_eq!(p, "/tmp/a"),
        other => panic!("unexpected {:?}", other),
    }
    match detect_input_type("file://file://x", true) {
        InputType::File(p) => assert_eq!(p, "file://x"),
        other => panic!("unexpected {:?}", other),
    }
}

#[test]
fn expression_is_mathematical_and_copied() {
    let value = exmex::eval_str::<f64>("2+2").unwrap();
    assert_eq!(value, 4.0);
    let shown = value.to_string();
    assert_eq!(shown, "4");
    assert!(matches!(detect_input_type("2+2", true), InputType::Mathematical));
    assert!(matches!(detect_input_type("hello", false), InputType::Search));
    let r = exec("2+2".to_string(), &vec![], observed(Ok(shown), vec![]));
    match action_of(&r) {
        Some(PluginActionType::Copy(s)) => assert_eq!(s, "4"),
        other => panic!("unexpected {:?}", other),
    }
    let (title, body) = section_parts(&r.elements[0]);
    assert_eq!(title, "(2+2) evaluation");
    assert_eq!(text(&body[0]), "4");
}

#[test]
fn evaluator_error_is_shown_without_action() {
    let err = exmex::eval_str::<f64>("2+*").unwrap_err().to_string();
    let r = mathematical(" 2+* ", Err(err.clone()));
    assert!(r.action.is_none());
    assert_eq!(r.error.as_deref(), Some(err.as_str()));
    let (title, body) = section_parts(&r.elements[0]);
    assert_eq!(title, "(2+*) evaluation");
    assert_eq!(text(&body[0]), err);
    assert!(mathematical("", Ok("1".into())).elements.is_empty());
}

#[test]
fn exit_command() {
    match detect_input_type("@exit", false) {
        InputType::Command(c) => assert_eq!(c, "exit"),
        other => panic!("unexpected {:?}", other),
    }
    let r = exec("@exit".to_string(), &vec![], observed(Err("x".into()), vec![]));
    assert!(matches!(action_of(&r), Some(PluginActionType::Exit)));
    assert!(r.elements.is_empty());
}

#[test]
fn command_word_ends_at_any_white_space() {
    assert!(matches!(detect_input_type("@exit\t", false), InputType::Command(c) if c == "exit"));
    assert!(matches!(detect_input_type("@help\nmore", false), InputType::Command(c) if c == "help"));
    let plugins = vec![plugin("ls", None)];
    let q = plugin_queries("@ls\tfoo", false, &plugins);
    assert_eq!(q[0].as_deref(), Some("foo"));
}

#[test]
fn open_command() {
    let r = exec("@open /tmp/x".to_string(), &vec![], observed(Err("x".into()), vec![]));
    match action_of(&r) {
        Some(PluginActionType::Open(s)) => assert_eq!(s, "/tmp/x"),
        other => panic!("unexpected {:?}", other),
    }
    let (title, body) = section_parts(&r.elements[0]);
    assert_eq!(title, "Open");
    assert_eq!(text(&body[0]), "open /tmp/x");
}

#[test]
fn exp_command_evaluates_the_rest() {
    assert_eq!(expression_of("@exp 2+2"), " 2+2");
    assert_eq!(expression_of("2+2"), "2+2");
    let value = exmex::eval_str::<f64>(&expression_of("@exp 2+2")).unwrap().to_string();
    let r = exec("@exp 2+2".to_string(), &vec![], observed(Ok(value), vec![]));
    match action_of(&r) {
        Some(PluginActionType::Copy(s)) => assert_eq!(s, "4"),
        other => panic!("unexpected {:?}", other),
    }
    let (title, _) = section_parts(&r.elements[0]);
    assert_eq!(title, "(2+2) evaluation");
}

#[test]
fn help_lists_commands_and_plugins() {
    let plugins = vec![plugin("ls", None), plugin("web", Some(true))];
    let r = command("help", "@help", &plugins, Err("x".into()));
    assert!(r.action.is_none());
    assert_eq!(r.elements.len(), 2);
    let (title, body) = section_parts(&r.elements[0]);
    assert_eq!(title, "Help");
    assert!(text(&body[0]).starts_with("@exit: exit the program\n"));
    let (title, body) = section_parts(&r.elements[1]);
    assert_eq!(title, "Plugins");
    assert_eq!(text(&body[0]), "@ls <query>: ls plugin\n@web <query>: web plugin\n");
    assert!(command("nope", "@nope", &plugins, Err("x".into())).elements.is_empty());
}

#[test]
fn silent_plugin_is_isolated() {
    let plugins = vec![plugin("a", Some(true)), plugin("b", Some(true)), plugin("c", Some(true))];
    let responses = vec![
        Some(reply(&["from a"], Some(PluginActionType::Copy("a".into())), Some("/a.png"))),
        None,
        Some(reply(&["from c"], None, None)),
    ];
    let r = fan_out("query", &plugins, responses);
    assert_eq!(r.elements.len(), 3);
    assert_eq!(text(&kids(&r.elements[0])[0]), "Searching for ");
    assert_eq!(text(&kids(&r.elements[0])[1]), "«query»");
    assert_eq!(r.elements[0].id, "Search");
    assert_eq!(kids(&r.elements[0])[0].id, "SearchPrefix");
    assert_eq!(kids(&r.elements[0])[1].id, "SearchQuery");
    let (title, body) = section_parts(&r.elements[1]);
    assert_eq!(title, "a");
    assert_eq!(text(&kids(&body[0])[0]), "from a");
    let (title, _) = section_parts(&r.elements[2]);
    assert_eq!(title, "c");
    assert!(matches!(action_of(&r), Some(PluginActionType::Copy(s)) if s == "a"));
    assert_eq!(r.set_icon.as_deref(), Some("/a.png"));
}

#[test]
fn later_plugin_action_wins() {
    let plugins = vec![plugin("a", Some(true)), plugin("b", Some(false)), plugin("c", Some(true))];
    let responses = vec![
        Some(reply(&["x"], Some(PluginActionType::Copy("a".into())), Some("/a.png"))),
        Some(reply(&["y"], Some(PluginActionType::Exit), None)),
        Some(reply(&["z"], Some(PluginActionType::Open("c".into())), None)),
    ];
    let r = fan_out("q", &plugins, responses);
    assert_eq!(r.elements.len(), 3);
    assert!(matches!(action_of(&r), Some(PluginActionType::Open(s)) if s == "c"));
    assert_eq!(r.set_icon.as_deref(), Some("/a.png"));
}

#[test]
fn invalid_json_contributes_nothing() {
    let p = plugin("a", Some(true));
    let decoded: Option<PluginResponse> = match serde_json::from_str::<serde_json::Value>("{not json") {
        Ok(_) => panic!("should not decode"),
        Err(_) => None,
    };
    assert!(plugin_contribution(&p, decoded).is_none());
    assert!(plugin_contribution(&p, Some(reply(&[], Some(PluginActionType::Exit), None))).is_none());
}

#[test]
fn contribution_wraps_elements_under_title() {
    let p = plugin("ls", Some(true));
    let w = plugin_contribution(&p, Some(reply(&["one", "two"], None, Some("/i.png")))).unwrap();
    assert_eq!(w.title.as_deref(), Some("ls"));
    assert_eq!(w.set_icon.as_deref(), Some("/i.png"));
    let (title, body) = section_parts(&w.elements[0]);
    assert_eq!(title, "ls");
    assert_eq!(kids(&body[0]).len(), 2);
    let mut titled = reply(&["one"], None, None);
    titled.title = Some("Files".to_string());
    let w = plugin_contribution(&p, Some(titled)).unwrap();
    assert_eq!(section_parts(&w.elements[0]).0, "Files");
}

#[test]
fn long_query_is_empty() {
    let input = "a".repeat(1001);
    let plugins = vec![plugin("any", Some(true))];
    let r = exec(input.clone(), &plugins, observed(Ok("1".into()), vec![Some(reply(&["x"], None, None))]));
    assert!(r.elements.is_empty());
    assert!(r.action.is_none());
    assert!(plugin_queries(&input, false, &plugins)[0].is_none());
    let r = exec(String::new(), &plugins, observed(Ok("1".into()), vec![]));
    assert!(r.elements.is_empty());
    let ok = "a".repeat(1000);
    assert_eq!(exec(ok, &plugins, observed(Err("x".into()), vec![])).elements.len(), 1);
}

#[test]
fn unknown_at_name_is_a_search() {
    let plugins = vec![plugin("ls", None), plugin("any", Some(true))];
    assert!(matches!(detect_input_type("@nosuch foo", true), InputType::Search));
    let q = plugin_queries("@nosuch foo", true, &plugins);
    assert!(q[0].is_none());
    assert_eq!(q[1].as_deref(), Some("@nosuch foo"));
    let responses = vec![Some(reply(&["ls says"], None, None)), Some(reply(&["any says"], None, None))];
    let r = exec("@nosuch foo".to_string(), &plugins, observed(Ok("1".into()), responses));
    assert_eq!(r.elements.len(), 2);
    assert_eq!(section_parts(&r.elements[1]).0, "any");
}

#[test]
fn named_plugin_is_dispatched() {
    let plugins = vec![plugin("any", Some(true)), plugin("ls", None)];
    let q = plugin_queries("@ls foo bar", false, &plugins);
    assert!(q[0].is_none());
    assert_eq!(q[1].as_deref(), Some("foo bar"));
    assert_eq!(plugin_queries("@ls", false, &plugins)[1].as_deref(), Some(""));
    let responses = vec![None, Some(reply(&["listing"], Some(PluginActionType::RunCmd("ls".into())), None))];
    let r = exec("@ls foo bar".to_string(), &plugins, observed(Err("x".into()), responses));
    assert_eq!(r.elements.len(), 1);
    assert_eq!(section_parts(&r.elements[0]).0, "ls");
    assert!(matches!(action_of(&r), Some(PluginActionType::RunCmd(s)) if s == "ls"));
    let r = exec("@ls foo".to_string(), &plugins, observed(Err("x".into()), vec![None, None]));
    assert!(r.elements.is_empty());
}

#[test]
fn search_header_for_plain_text() {
    let r = exec("firefox".to_string(), &vec![], observed(Err("x".into()), vec![]));
    assert_eq!(r.elements.len(), 1);
    assert_eq!(text(&kids(&r.elements[0])[1]), "«firefox»");
    assert!(r.action.is_none());
}

#[test]
fn url_response() {
    let r = url("http://a.b");
    assert!(matches!(action_of(&r), Some(PluginActionType::Open(s)) if s == "http://a.b"));
}

#[test]
fn file_queries() {
    let home = Some("/home/u".to_string());
    assert_eq!(expand_home("~/notes", &home), "/home/u/notes");
    assert_eq!(expand_home("/etc", &home), "/etc");
    assert_eq!(expand_home("~/notes", &None), "~/notes");
    assert_eq!(file_target("file://~/a.txt", &home), "/home/u/a.txt");
    let obs = Observed { evaluation: Err("x".into()), responses: vec![], home: home.clone(), file: FileInfo::Missing };
    let r = exec("file://~/gone".to_string(), &vec![], obs);
    let (title, body) = section_parts(&r.elements[0]);
    assert_eq!(title, "File");
    assert_eq!(text(&body[0]), "/home/u/gone does not exist.");
    assert!(r.action.is_none());
    let r = describe_file("/x", &FileInfo::Unreadable, None);
    assert_eq!(text(&section_parts(&r.elements[0]).1[0]), "Cannot get metadata of /x");
}

#[test]
fn file_details_and_date() {
    let info = FileInfo::File { name: "a.txt".into(), size: 2048, kind: "file".into(), modified: 86400 };
    let r = fsearch::file_response("/tmp/a.txt", &info);
    let (_, body) = section_parts(&r.elements[0]);
    let row: Vec<String> = kids(&body[0]).iter().map(text).collect();
    assert_eq!(row, vec!["a.txt", "2 KB", "file", "1970-01-02"]);
    assert_eq!(body[0].id, "BoxContentElement");
    assert_eq!(body[0].classes, vec!["fileContainer".to_string()]);
    let ids: Vec<&str> = kids(&body[0]).iter().map(|e| e.id.as_str()).collect();
    assert_eq!(ids, vec!["FileName", "FileSize", "FileType", "LastModified"]);
    let dir = FileInfo::Directory { size: 10, modified: 0 };
    let r = describe_file("/tmp", &dir, None);
    let (_, body) = section_parts(&r.elements[0]);
    let row: Vec<String> = kids(&body[0]).iter().map(text).collect();
    assert_eq!(row, vec!["/tmp", "10 B", "unknown"]);
    let far = FileInfo::File { name: "f".into(), size: 1, kind: "file".into(), modified: i64::MAX };
    let r = fsearch::file_response("/f", &far);
    let (_, body) = section_parts(&r.elements[0]);
    assert_eq!(text(&kids(&body[0])[3]), "unknown");
}

#[test]
fn sizes() {
    assert_eq!(format_size(0), "0 B");
    assert_eq!(format_size(1023), "1023 B");
    assert_eq!(format_size(1024), "1 KB");
    assert_eq!(format_size(1536), "1 KB");
    assert_eq!(format_size(5 * 1024 * 1024), "5 MB");
    assert_eq!(format_size(3 * 1024 * 1024 * 1024), "3 GB");
    assert_eq!(format_size(1u64 << 40), "1 TB");
    assert_eq!(format_size(u64::MAX), "16777215 TB");
}

#[test]
fn exec_lines() {
    assert_eq!(get_exec("firefox %u"), "firefox");
    assert_eq!(get_exec("  code --new-window %F %U "), "code --new-window");
    assert_eq!(get_exec("app %%f"), "app %");
    assert_eq!(get_exec("plain"), "plain");
    let e = AppEntry {
        command: "htop %f".into(),
        need_terminal: true,
        icon: "i".into(),
        name: "htop".into(),
        description: "d".into(),
    };
    assert_eq!(e.command_line(Some("foot".into()), None), "foot htop");
    assert_eq!(e.command_line(Some("foot".into()), Some("-e".into())), "foot -e htop");
    assert_eq!(e.command_line(None, None), "kitty -e htop");
    let mut g = e.clone();
    g.need_terminal = false;
    assert_eq!(g.command_line(Some("foot".into()), None), "htop");
}

#[test]
fn plugin_commands() {
    assert_eq!(resolve_command("@script:myls", "/c/fsearch/scripts").as_deref(), Some("/c/fsearch/scripts/myls"));
    assert!(resolve_command("@script:myls", "").is_none());
    assert!(resolve_command("", "/c").is_none());
    assert_eq!(resolve_command("/usr/bin/ls", "/c").as_deref(), Some("/usr/bin/ls"));
    assert!(plugin_payload(" \n\t").is_none());
    assert_eq!(plugin_payload("  {\"a\":1}\n").as_deref(), Some("{\"a\":1}"));
}

#[test]
fn config_locations() {
    let x = Some("/x".to_string());
    let h = Some("/h".to_string());
    assert_eq!(config_dir(&x, &h).as_deref(), Some("/x/fsearch"));
    assert_eq!(config_dir(&None, &h).as_deref(), Some("/h/.config/fsearch"));
    assert!(config_dir(&None, &None).is_none());
    assert_eq!(get_scripts_dir(&None, &h), "/h/.config/fsearch/scripts");
    assert_eq!(get_scripts_dir(&None, &None), "");
    assert_eq!(fsearch::config_file(&x, &None, "config.toml").as_deref(), Some("/x/fsearch/config.toml"));
    assert_eq!(get_scripts_dir(&Some("/a/".to_string()), &None), "/a/fsearch/scripts");
    assert_eq!(get_scripts_dir(&Some(String::new()), &h), "fsearch/scripts");
    assert_eq!(get_scripts_dir(&None, &Some("/h/".to_string())), "/h/.config/fsearch/scripts");
    assert_eq!(fsearch::config::join("/a", "/etc/x"), "/etc/x");
    assert_eq!(fsearch::config::join("a", ""), "a/");
    assert!(is_plugin_file("ls.toml"));
    assert!(!is_plugin_file("ls.toml.bak"));
    assert!(!is_plugin_file("toml"));
    let look = Look { initial_width: Some(50), disable_tip: None, input_placeholder: None };
    assert_eq!(look.width(), 100);
    let look = Look { initial_width: None, disable_tip: None, input_placeholder: None };
    assert_eq!(look.width(), 600);
    assert!(!ConfigArgs { config: None, css: None }.has_any());
    assert!(ConfigArgs { config: None, css: Some("a.css".into()) }.has_any());
}

#[test]
fn entry_selection() {
    let scores = vec![Some(10), None, Some(0), Some(5), Some(7)];
    assert_eq!(select_scored(&scores, false), vec![0, 3, 4]);
    assert_eq!(select_scored(&scores, true), vec![0]);
    let many: Vec<Option<i64>> = (0..15).map(|_| Some(1)).collect();
    assert_eq!(select_scored(&many, false).len(), 10);
    let entry = |n: &str| AppEntry {
        command: n.to_lowercase(),
        need_terminal: false,
        icon: String::new(),
        name: n.to_string(),
        description: String::new(),
    };
    let entries = vec![entry("Terminal"), entry("Firefox"), entry("Files")];
    assert_eq!(select_entries(&entries, "firef", false), vec![1]);
}

#[test]
fn builder_makes_deep_tree() {
    let button = ElementBuilder::new(DataType::Button)
        .id("b")
        .on_click(new_plugin_action(PluginActionType::Copy("x".into()), Some(true)))
        .build();
    let tree = ElementBuilder::new(DataType::Box)
        .id("root")
        .hexpand(true)
        .vexpand(false)
        .wrap(true)
        .ellipsize(false)
        .classes(vec!["c".into()])
        .append(label("hi"))
        .append(button)
        .image_path("/p.png")
        .build();
    assert_eq!(tree.id, "root");
    assert_eq!(tree.hexpand, Some(true));
    assert_eq!(tree.vexpand, Some(false));
    assert_eq!(tree.image_path.as_deref(), Some("/p.png"));
    let c = kids(&tree);
    assert_eq!(c.len(), 2);
    assert_eq!(text(&c[0]), "hi");
    match &c[1].on_click {
        Some(a) => {
            assert!(matches!(&a.action, PluginActionType::Copy(s) if s == "x"));
            assert_eq!(a.close_after_run, Some(true));
        }
        None => panic!("no action"),
    }
    let replaced = ElementBuilder::new(DataType::Box).children(vec![label("a")]).append(label("b")).build();
    assert_eq!(kids(&replaced).len(), 2);
}
