use cng4::arguments::Mode;
use cng4::messages::{self, Action, Cmd, Data, Effect, Level, Msg};
use cng4::plugins::plugins_main::{InsertError, Plugins};

fn msg(text: &str) -> Msg {
    Msg::at(
        1_700_000_000,
        "test",
        Data::Cmd(Cmd {
            cmd: text.to_string(),
        }),
    )
}

fn words(list: &[&str]) -> Vec<String> {
    list.iter().map(|w| w.to_string()).collect()
}

fn sent(effect: &Effect) -> (String, String) {
    match effect {
        Effect::Send { origin, cmd } => (origin.clone(), cmd.clone()),
        other => panic!("not a command: {:?}", other),
    }
}

fn is_warning(effect: &Effect) -> bool {
    matches!(effect, Effect::Send { cmd, .. } if cmd.starts_with("p log log WARN '"))
}

fn is_info(effect: &Effect) -> bool {
    matches!(effect, Effect::Send { cmd, .. } if cmd.starts_with("p log log INFO '"))
}

fn registry(names: &[&str]) -> Plugins {
    let mut plugins = Plugins::new(Mode::Gui, "script.toml");
    for name in names {
        assert_eq!(plugins.insert(name), Ok(()));
    }
    plugins
}

#[test]
fn component_command_invokes_one_handler_with_all_words() {
    let mut plugins = registry(&["log", "weather"]);
    let effects = plugins.handle_cmd(&msg("p weather add \"Taipei\" 25.03 121.56"));
    assert_eq!(effects.len(), 1);
    match &effects[0] {
        Effect::Invoke {
            index,
            action,
            cmd_parts,
        } => {
            assert_eq!(*index, 1);
            assert_eq!(*action, Action::Add);
            assert_eq!(
                cmd_parts,
                &words(&["p", "weather", "add", "Taipei", "25.03", "121.56"])
            );
        }
        other => panic!("unexpected effect {:?}", other),
    }
    assert_eq!(plugins.len(), 2);
}

#[test]
fn quoted_argument_stays_one_word() {
    let mut plugins = registry(&["log"]);
    let effects = plugins.handle_cmd(&msg("p log log INFO 'two words' # trailing"));
    assert_eq!(effects.len(), 1);
    match &effects[0] {
        Effect::Invoke { cmd_parts, .. } => {
            assert_eq!(cmd_parts, &words(&["p", "log", "log", "INFO", "two words"]));
        }
        other => panic!("unexpected effect {:?}", other),
    }
}

#[test]
fn unknown_action_gives_one_warning_and_no_change() {
    let mut plugins = registry(&["log"]);
    for line in ["p log frobnicate 1 2", "p plugins frobnicate", "p nobody frobnicate"] {
        let effects = plugins.handle_cmd(&msg(line));
        assert_eq!(effects.len(), 1, "{line}");
        assert!(is_warning(&effects[0]), "{line}");
        let (origin, cmd) = sent(&effects[0]);
        assert_eq!(origin, "plugins");
        assert!(cmd.contains("frobnicate"));
        assert_eq!(plugins.len(), 1);
        assert!(plugins.panels().is_empty());
    }
    let effects = plugins.handle_cmd(&msg("p log frobnicate 1 2"));
    assert_eq!(
        sent(&effects[0]).1,
        "p log log WARN 'Invalid <action> (`frobnicate`) for `p <plugin_name> <action> ...` command: `p log frobnicate 1 2`'"
    );
}

#[test]
fn missing_action_gives_one_warning_that_names_the_component() {
    let mut plugins = registry(&["log"]);
    let effects = plugins.handle_cmd(&msg("p foo"));
    assert_eq!(effects.len(), 1);
    assert!(is_warning(&effects[0]));
    let (_, cmd) = sent(&effects[0]);
    assert!(cmd.contains("foo"));
    assert_eq!(
        cmd,
        "p log log WARN 'Invalid <plugin_name> (`foo`) for `p <plugin_name> <action> ...` command: `p foo`'"
    );
    assert_eq!(plugins.len(), 1);
    assert!(plugins.get_plugin("foo").is_none());

    let effects = plugins.handle_cmd(&msg("p log"));
    assert_eq!(effects.len(), 1);
    assert_eq!(
        sent(&effects[0]).1,
        "p log log WARN 'Missing <action> for `p <plugin_name> <action> ...` command: `p log`'"
    );
}

#[test]
fn missing_plugin_name_is_a_warning() {
    let mut plugins = registry(&[]);
    let effects = plugins.handle_cmd(&msg("p"));
    assert_eq!(effects.len(), 1);
    assert_eq!(
        sent(&effects[0]).1,
        "p log log WARN 'Missing <plugin_name> for `p <plugin_name> <action> ...` command: `p`'"
    );
}

#[test]
fn unterminated_quote_is_a_parse_failure() {
    let mut plugins = registry(&["log"]);
    let effects = plugins.handle_cmd(&msg("p log log INFO 'open"));
    assert_eq!(effects.len(), 1);
    assert_eq!(
        sent(&effects[0]),
        (
            "plugins".to_string(),
            "p log log WARN 'Failed to parse cmd `p log log INFO _open`.'".to_string()
        )
    );
}

#[test]
fn insert_is_rejected_for_duplicates_and_unknown_names() {
    let mut plugins = registry(&["log"]);
    assert_eq!(plugins.insert("log"), Err(InsertError::AlreadyInserted));
    assert_eq!(plugins.insert("nonsense"), Err(InsertError::UnknownName));
    assert_eq!(plugins.len(), 1);
    assert_eq!(
        InsertError::AlreadyInserted.message("log"),
        "Plugin `log` is already inserted."
    );
    assert_eq!(
        InsertError::UnknownName.message("nonsense"),
        "Unknown plugin name: `nonsense`"
    );

    let effects = plugins.handle_cmd(&msg("p plugins insert cfg"));
    assert_eq!(effects.len(), 3);
    assert_eq!(sent(&effects[0]).1, "p log log INFO 'insert'");
    assert_eq!(sent(&effects[1]).1, "p log log INFO '  - `cfg`'");
    assert!(matches!(&effects[2], Effect::Insert { plugin } if plugin == "cfg"));
    assert_eq!(plugins.len(), 1);

    let effects = plugins.handle_cmd(&msg("p plugins insert log"));
    assert_eq!(effects.len(), 3);
    assert_eq!(
        sent(&effects[2]).1,
        "p log log WARN 'Plugin `log` is already inserted.'"
    );
    let effects = plugins.handle_cmd(&msg("p plugins insert"));
    assert_eq!(effects.len(), 2);
    assert_eq!(
        sent(&effects[1]).1,
        "p log log WARN 'Missing <plugin> for `insert` command: `p plugins insert`'"
    );
}

#[test]
fn insert_panel_twice_lists_the_panel_once() {
    let mut plugins = registry(&["log"]);
    let first = plugins.handle_cmd(&msg("p plugins insert_panel log"));
    assert_eq!(first.len(), 3);
    assert!(is_info(&first[0]));
    assert_eq!(sent(&first[1]).1, "p log log INFO '  - `log`'");
    assert!(matches!(first[2], Effect::Redraw));
    let second = plugins.handle_cmd(&msg("p plugins insert_panel log"));
    assert_eq!(second.len(), 2);
    assert_eq!(
        sent(&second[1]).1,
        "p log log WARN 'Panel `log` is already inserted.'"
    );
    assert_eq!(plugins.panels(), &words(&["log"]));
}

#[test]
fn show_lists_components_and_panels() {
    let mut plugins = registry(&["log", "cfg"]);
    let lines: Vec<String> = plugins
        .handle_cmd(&msg("p plugins show"))
        .iter()
        .map(|e| sent(e).1)
        .collect();
    assert_eq!(
        lines,
        vec![
            "p log log INFO 'show'",
            "p log log INFO '  - Plugins:'",
            "p log log INFO '    - log'",
            "p log log INFO '    - cfg'",
            "p log log INFO '  - Panels:'",
            "p log log INFO '    - <none>'",
        ]
    );
    plugins.handle_cmd(&msg("p plugins insert_panel log"));
    let lines: Vec<String> = plugins
        .handle_cmd(&msg("p plugins show"))
        .iter()
        .map(|e| sent(e).1)
        .collect();
    assert_eq!(lines.last().unwrap(), "p log log INFO '    - log'");
    assert_eq!(lines.len(), 6);
    let help: Vec<String> = plugins
        .handle_cmd(&msg("p plugins help"))
        .iter()
        .map(|e| sent(e).1)
        .collect();
    assert_eq!(
        help,
        vec!["p log log INFO 'help'", "p log log INFO '  insert <plugin>'"]
    );
}

#[test]
fn unsupported_action_of_the_registry_is_a_warning() {
    let mut plugins = registry(&[]);
    let effects = plugins.handle_cmd(&msg("p plugins publish"));
    assert_eq!(effects.len(), 1);
    assert_eq!(
        sent(&effects[0]).1,
        "p log log WARN 'Unsupported action: `publish`'"
    );
}

#[test]
fn bus_routes_by_first_word() {
    let mut plugins = registry(&["log"]);
    let effects = messages::handle_msg(&msg("quit"), &mut plugins);
    assert!(matches!(effects[..], [Effect::Shutdown]));
    let effects = messages::handle_msg(&msg("  q  # bye"), &mut plugins);
    assert!(matches!(effects[..], [Effect::Shutdown]));
    let effects = messages::handle_msg(&msg("exit"), &mut plugins);
    assert!(matches!(effects[..], [Effect::Shutdown]));
    let effects = messages::handle_msg(&msg("   # only a comment"), &mut plugins);
    assert_eq!(effects.len(), 1);
    assert_eq!(
        sent(&effects[0]),
        ("messages".to_string(), "p log log INFO ''".to_string())
    );
    let effects = messages::handle_msg(&msg("hello world"), &mut plugins);
    assert_eq!(
        sent(&effects[0]),
        (
            "messages".to_string(),
            "p log log WARN 'Unknown command: `hello`'".to_string()
        )
    );
    let effects = messages::handle_msg(&msg("p log show"), &mut plugins);
    assert!(matches!(
        &effects[..],
        [Effect::Invoke {
            index: 0,
            action: Action::Show,
            ..
        }]
    ));
}

#[test]
fn log_command_replaces_quotes() {
    assert_eq!(
        messages::log_text(Level::Warn, "it's a 'test'"),
        "p log log WARN 'it_s a _test_'"
    );
    let m = messages::info("main", "Starting");
    assert_eq!(m.plugin, "main");
    match &m.data {
        Data::Cmd(c) => assert_eq!(c.cmd, "p log log INFO 'Starting'"),
    }
    let m = messages::error("main", "bad");
    match &m.data {
        Data::Cmd(c) => assert_eq!(c.cmd, "p log log ERROR 'bad'"),
    }
    let m = messages::cmd("gui", "p plugins key tab");
    assert_eq!(m.plugin, "gui");
    assert_eq!(m.data.to_string(), "Cmd: [CMD] p plugins key tab");
}
