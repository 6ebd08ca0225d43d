use cng4::arguments::Mode;
use cng4::messages::{Action, DeviceKey, Effect, Level};
use cng4::plugins::plugin_command;
use cng4::plugins::plugin_devices;
use cng4::plugins::plugin_editor::{self, Opened};
use cng4::plugins::plugin_gui::{self, KeyCode, Modifiers};
use cng4::plugins::plugin_log::{self, PrintStyle};
use cng4::plugins::plugin_mqtt;
use cng4::plugins::plugin_panels;
use cng4::plugins::plugin_system::{self, SystemInfo};
use cng4::utils::nas::{folder_meta, FileMeta};
use cng4::utils::panel::{LineStyle, PanelInfo, PanelType, Rect};

fn words(line: &str) -> Vec<String> {
    line.split(' ').map(|w| w.to_string()).collect()
}

fn strings(list: &[&str]) -> Vec<String> {
    list.iter().map(|w| w.to_string()).collect()
}

fn cmd_of(effect: &Effect) -> String {
    match effect {
        Effect::Send { cmd, .. } => cmd.clone(),
        other => panic!("not a command: {:?}", other),
    }
}

fn cmds(effects: &[Effect]) -> Vec<String> {
    effects.iter().map(cmd_of).collect()
}

const AREA: Rect = Rect {
    x: 0,
    y: 0,
    width: 100,
    height: 43,
};

#[test]
fn log_lines_go_to_the_panel() {
    let mut log = plugin_log::PluginUnit::new(Mode::Gui);
    let parts = strings(&["p", "log", "log", "WARN", "first\nsecond"]);
    let out = log.handle_action_at(Action::Log, &parts, "12:34:56", 7, "mqtt", "pi5");
    assert_eq!(out.len(), 1);
    assert!(matches!(&out[0], plugin_log::Output::Bus(e) if cmd_of(e) == "p plugins redraw log"));
    assert_eq!(
        log.logs(),
        &strings(&["12:34:56       mqtt: [W] first", "12:34:56       mqtt: [W] second"])
    );
    let drawn = log.draw(AREA, true);
    assert_eq!(drawn.title, "log");
    assert!(drawn.active);
    assert_eq!(drawn.lines.len(), 2);
    assert_eq!(drawn.lines[0].style, LineStyle::Warn);
    assert_eq!(drawn.cursor, None);
}

#[test]
fn log_is_capped_by_one_line_a_message() {
    let mut log = plugin_log::PluginUnit::new(Mode::Gui);
    for i in 0..1005 {
        let parts = strings(&["p", "log", "log", "INFO", &format!("line {i}")]);
        log.handle_action_at(Action::Log, &parts, "00:00:00", 0, "test", "pi5");
    }
    assert_eq!(log.logs().len(), 1000);
    assert_eq!(log.logs()[0], "00:00:00       test: [I] line 5");
    let area = Rect {
        x: 0,
        y: 0,
        width: 100,
        height: 43,
    };
    log.handle_action_at(
        Action::Gui,
        &words("p log gui normal 0 0 50 50"),
        "",
        0,
        "",
        "",
    );
    let drawn = log.draw(area, false);
    assert_eq!(
        drawn.area,
        Rect {
            x: 0,
            y: 0,
            width: 50,
            height: 20
        }
    );
    assert_eq!(drawn.scroll, 1000 - 17);
}

#[test]
fn log_prints_and_posts_without_panels() {
    let mut log = plugin_log::PluginUnit::new(Mode::Cli);
    log.handle_action_at(Action::Dest, &words("p log dest 100.1.2.3"), "", 0, "", "");
    let parts = strings(&["p", "log", "log", "ERROR", "it broke"]);
    let out = log.handle_action(Action::Log, &parts, 1_700_000_000, "a-long-plugin-name", "pi5");
    assert_eq!(out.len(), 2);
    match &out[0] {
        plugin_log::Output::Post {
            dest,
            name,
            ts,
            plugin,
            level,
            msg,
        } => {
            assert_eq!(dest, "100.1.2.3");
            assert_eq!(name, "pi5");
            assert_eq!(*ts, 1_700_000_000);
            assert_eq!(plugin, "a-long-plugin-name");
            assert_eq!(level, "ERROR");
            assert_eq!(msg, "it broke");
        }
        other => panic!("unexpected {:?}", other),
    }
    match &out[1] {
        plugin_log::Output::Print { line, style } => {
            assert_eq!(*style, PrintStyle::Red);
            assert!(line.ends_with(" a-long-plugin-name: [E] it broke"));
            assert_eq!(line.len(), 8 + " a-long-plugin-name: [E] it broke".len());
        }
        other => panic!("unexpected {:?}", other),
    }
    assert!(log.logs().is_empty());
    log.handle_action_at(Action::Dest, &words("p log dest"), "", 0, "", "");
    for (level, style) in [
        ("info", PrintStyle::Normal),
        ("WARN", PrintStyle::Yellow),
        ("Error", PrintStyle::Red),
        ("fatal", PrintStyle::RedOnYellow),
    ] {
        let parts = strings(&["p", "log", "log", level, "m"]);
        let out = log.handle_action_at(Action::Log, &parts, "t", 0, "p", "s");
        assert_eq!(out.len(), 1);
        assert!(matches!(&out[0], plugin_log::Output::Print { style: s, .. } if *s == style));
    }
    assert_eq!(plugin_log::format_line("t", "p", "warn", "m"), "t          p: [W] m");
}

#[test]
fn log_answers_show_help_and_keys() {
    let mut log = plugin_log::PluginUnit::new(Mode::Gui);
    let out = log.handle_action_at(Action::Show, &words("p log show"), "", 0, "", "");
    let lines: Vec<String> = out
        .iter()
        .map(|o| match o {
            plugin_log::Output::Bus(e) => cmd_of(e),
            other => panic!("unexpected {:?}", other),
        })
        .collect();
    assert_eq!(
        lines,
        vec![
            "p log log INFO 'show'",
            "p log log INFO '  Mode: gui'",
            "p log log INFO '  Dest: None'",
            "p log log INFO '  Panel info: PanelInfo { panel_type: Normal, x: 0, y: 0, w: 0, h: 0 }'",
        ]
    );
    log.handle_action_at(Action::Dest, &words("p log dest a\"b"), "", 0, "", "");
    let out = log.handle_action_at(Action::Show, &words("p log show"), "", 0, "", "");
    assert!(
        matches!(&out[2], plugin_log::Output::Bus(e) if cmd_of(e) == "p log log INFO '  Dest: Some(\"a\\\"b\")'")
    );
    let out = log.handle_action_at(Action::Help, &words("p log help"), "", 0, "", "");
    assert_eq!(out.len(), 3);
    let out = log.handle_action_at(Action::Log, &words("p log log INFO"), "", 0, "", "");
    assert!(
        matches!(&out[0], plugin_log::Output::Bus(e) if cmd_of(e) == "p log log WARN 'Incomplete log command: [\"p\", \"log\", \"log\", \"INFO\"]'")
    );
    log.handle_action_at(Action::Gui, &words("p log gui normal 10 10 50 50"), "", 0, "", "");
    let out = log.handle_action_at(Action::Key, &words("p log key alt_d"), "", 0, "", "");
    assert!(matches!(&out[0], plugin_log::Output::Bus(e) if cmd_of(e) == "p plugins redraw"));
    assert_eq!(
        log.panel_info(),
        PanelInfo {
            panel_type: PanelType::Normal,
            x: 10,
            y: 10,
            w: 51,
            h: 50
        }
    );
    log.handle_action_at(Action::Log, &words("p log log INFO x"), "t", 0, "p", "s");
    let out = log.handle_action_at(Action::Key, &words("p log key alt_c"), "", 0, "", "");
    assert!(matches!(&out[0], plugin_log::Output::Bus(e) if cmd_of(e) == "p plugins redraw log"));
    assert!(log.logs().is_empty());
    let out = log.handle_action_at(Action::Key, &words("p log key up"), "", 0, "", "");
    assert!(out.is_empty());
    let out = log.handle_action_at(Action::Publish, &words("p log publish"), "", 0, "", "");
    assert!(
        matches!(&out[0], plugin_log::Output::Bus(e) if cmd_of(e) == "p log log WARN 'Unsupported action: `publish`'")
    );
}

#[test]
fn input_line_edits_and_remembers() {
    let mut gui = plugin_gui::PluginUnit::new();
    assert_eq!(cmd_of(&gui.init()), "p command output_update '> '");
    for c in "p log".chars() {
        gui.handle_keycode(Modifiers::Plain, KeyCode::Char(c));
    }
    let out = gui.handle_keycode(Modifiers::Plain, KeyCode::Char('x'));
    assert_eq!(cmds(&out), vec!["p command output_update '> p logx'"]);
    let out = gui.handle_keycode(Modifiers::Plain, KeyCode::Backspace);
    assert_eq!(cmds(&out), vec!["p command output_update '> p log'"]);
    let out = gui.handle_keycode(Modifiers::Plain, KeyCode::Enter);
    assert_eq!(cmds(&out), vec!["p log", "p command output_update '> '"]);
    assert_eq!(gui.output(), "");
    assert_eq!(gui.history(), &strings(&["p log"]));
    // An empty line, or the same line again, is not remembered.
    gui.handle_keycode(Modifiers::Plain, KeyCode::Enter);
    for c in "p log".chars() {
        gui.handle_keycode(Modifiers::Plain, KeyCode::Char(c));
    }
    gui.handle_keycode(Modifiers::Plain, KeyCode::Enter);
    assert_eq!(gui.history(), &strings(&["p log"]));
    for c in "q".chars() {
        gui.handle_keycode(Modifiers::Plain, KeyCode::Char(c));
    }
    gui.handle_keycode(Modifiers::Plain, KeyCode::Enter);
    assert_eq!(gui.history(), &strings(&["p log", "q"]));

    let out = gui.handle_action(Action::Key, &words("p gui key up"));
    assert_eq!(cmds(&out), vec!["p command output_update '> q'"]);
    gui.handle_action(Action::Key, &words("p gui key up"));
    assert_eq!(gui.output(), "p log");
    gui.handle_action(Action::Key, &words("p gui key up"));
    assert_eq!(gui.output(), "p log");
    gui.handle_action(Action::Key, &words("p gui key down"));
    assert_eq!(gui.output(), "q");
    gui.handle_action(Action::Key, &words("p gui key down"));
    assert_eq!(gui.output(), "");
    gui.handle_action(Action::Key, &words("p gui key down"));
    assert_eq!(gui.output(), "");
    gui.handle_keycode(Modifiers::Plain, KeyCode::Backspace);
    assert_eq!(gui.output(), "");
}

#[test]
fn keys_are_passed_on_by_name() {
    let mut gui = plugin_gui::PluginUnit::new();
    let mut pressed = |m, c| cmds(&gui.handle_keycode(m, c));
    assert_eq!(pressed(Modifiers::Plain, KeyCode::Tab), vec!["p plugins key tab"]);
    assert_eq!(pressed(Modifiers::Plain, KeyCode::Left), vec!["p plugins key left"]);
    assert_eq!(pressed(Modifiers::Alt, KeyCode::Char('c')), vec!["p plugins key alt_c"]);
    assert_eq!(pressed(Modifiers::Alt, KeyCode::Up), vec!["p plugins key alt_up"]);
    assert_eq!(pressed(Modifiers::Alt, KeyCode::Char('d')), vec!["p plugins key alt_d"]);
    assert_eq!(pressed(Modifiers::Control, KeyCode::Char('x')), vec!["p plugins key ctrl_x"]);
    assert_eq!(pressed(Modifiers::Control, KeyCode::Char('s')), vec!["p plugins key ctrl_s"]);
    assert!(pressed(Modifiers::Alt, KeyCode::Char('z')).is_empty());
    assert!(pressed(Modifiers::Control, KeyCode::Up).is_empty());
    assert!(pressed(Modifiers::Plain, KeyCode::Other).is_empty());
    assert!(pressed(Modifiers::Alt, KeyCode::Enter).is_empty());
}

#[test]
fn command_panel_shows_the_input() {
    let mut command = plugin_command::PluginUnit::new();
    let out = command.handle_action(
        Action::OutputUpdate,
        &strings(&["p", "command", "output_update", "> p log"]),
    );
    assert_eq!(cmds(&out), vec!["p plugins redraw"]);
    assert_eq!(command.output(), "> p log");
    let out = command.handle_action(Action::Key, &words("p command key up"));
    assert_eq!(cmds(&out), vec!["p gui key up"]);
    let out = command.handle_action(Action::Key, &words("p command key"));
    assert_eq!(
        cmds(&out),
        vec!["p log log WARN 'Missing <key> for `key` command: `p command key`'"]
    );
    let out = command.handle_action(Action::OutputUpdate, &words("p command output_update"));
    assert_eq!(
        cmds(&out),
        vec!["p log log WARN 'Missing <output> for `output_update` command: `p command output_update`'"]
    );
    let drawn = command.draw(AREA, true, "pi5", "1.2.3", "12:00:00");
    assert_eq!(drawn.title, "command - pi5 (v1.2.3) - 12:00:00");
    assert_eq!(
        drawn.area,
        Rect {
            x: 0,
            y: 40,
            width: 100,
            height: 3
        }
    );
    assert_eq!(drawn.cursor, Some((8, 41)));
    assert_eq!(drawn.scroll, 0);
    assert_eq!(drawn.lines.len(), 1);
    assert_eq!(drawn.lines[0].text, "> p log");
}

#[test]
fn editor_opens_and_moves_the_cursor() {
    let mut editor = plugin_editor::PluginUnit::new();
    let out = editor.handle_action(Action::Open, &words("p editor open notes.txt"));
    assert_eq!(out.len(), 3);
    assert!(matches!(&out[1], plugin_editor::Output::Bus(e) if cmd_of(e) == "p plugins popup editor"));
    assert!(
        matches!(&out[2], plugin_editor::Output::OpenFile { path } if path == "./nas/editor/notes.txt")
    );
    assert_eq!(editor.file_name(), "notes.txt");
    let out = editor.opened(
        "./nas/editor/notes.txt",
        &Opened::Content("one\nthree\n\nlonger line\n".to_string()),
    );
    assert!(matches!(&out[0], plugin_editor::Output::Bus(e) if cmd_of(e) == "p plugins redraw"));
    assert_eq!(editor.output(), &strings(&["one", "three", "", "longer line"]));

    let mut key = |editor: &mut plugin_editor::PluginUnit, k: &str| {
        editor.handle_action(Action::Key, &words(&format!("p editor key {k}")));
        editor.cursor_position()
    };
    assert_eq!(key(&mut editor, "end"), (3, 0));
    assert_eq!(key(&mut editor, "right"), (0, 1));
    assert_eq!(key(&mut editor, "end"), (5, 1));
    assert_eq!(key(&mut editor, "up"), (3, 0));
    assert_eq!(key(&mut editor, "up"), (0, 0));
    assert_eq!(key(&mut editor, "left"), (0, 0));
    assert_eq!(key(&mut editor, "down"), (0, 1));
    assert_eq!(key(&mut editor, "end"), (5, 1));
    assert_eq!(key(&mut editor, "down"), (0, 2));
    assert_eq!(key(&mut editor, "left"), (5, 1));
    assert_eq!(key(&mut editor, "home"), (0, 1));
    assert_eq!(key(&mut editor, "down"), (0, 2));
    assert_eq!(key(&mut editor, "down"), (0, 3));
    assert_eq!(key(&mut editor, "down"), (11, 3));
    assert_eq!(key(&mut editor, "right"), (11, 3));
    assert_eq!(key(&mut editor, "left"), (10, 3));

    editor.handle_action(Action::Gui, &words("p editor gui popup 10 10 80 80"));
    let drawn = editor.draw(AREA, true);
    assert_eq!(drawn.title, "editor - notes.txt");
    assert_eq!(drawn.cursor, Some((10 + 10 + 1, 4 + 3 + 1)));
    assert_eq!(drawn.lines.len(), 4);
    assert!(drawn.lines.iter().all(|l| l.style == LineStyle::Plain));

    let out = editor.handle_action(Action::Key, &words("p editor key ctrl_x"));
    let sent: Vec<String> = out
        .iter()
        .map(|o| match o {
            plugin_editor::Output::Bus(e) => cmd_of(e),
            other => panic!("unexpected {:?}", other),
        })
        .collect();
    assert_eq!(sent, vec!["p plugins popup", "p plugins redraw"]);
}

#[test]
fn editor_on_an_empty_file_never_leaves_the_start() {
    let mut editor = plugin_editor::PluginUnit::new();
    for k in ["end", "down", "right", "up", "left", "home"] {
        editor.handle_action(Action::Key, &words(&format!("p editor key {k}")));
        assert_eq!(editor.cursor_position(), (0, 0));
    }
    let out = editor.opened("x", &Opened::ReadFailed);
    assert!(
        matches!(&out[0], plugin_editor::Output::Bus(e) if cmd_of(e) == "p log log WARN 'Failed to read file `x`'")
    );
    let out = editor.opened("x", &Opened::OpenFailed("denied".to_string()));
    assert!(
        matches!(&out[0], plugin_editor::Output::Bus(e) if cmd_of(e) == "p log log WARN 'Failed to open file `x`: denied'")
    );
}

#[test]
fn editor_removes_and_lists() {
    let editor = plugin_editor::PluginUnit::new();
    let mut e2 = plugin_editor::PluginUnit::new();
    let out = e2.handle_action(Action::Remove, &words("p editor remove a.txt"));
    assert!(
        matches!(&out[1], plugin_editor::Output::RemoveFile { path } if path == "./nas/editor/a.txt")
    );
    let out = editor.removed("//nas/editor/a.txt", true);
    assert!(
        matches!(&out[0], plugin_editor::Output::Bus(e) if cmd_of(e) == "p log log INFO 'File `//nas/editor/a.txt` removed'")
    );
    assert!(
        matches!(&out[1], plugin_editor::Output::PostRemove { filename } if filename == "nas/editor/a.txt")
    );
    let out = editor.removed("a", false);
    assert_eq!(out.len(), 1);
    assert_eq!(plugin_editor::trim_leading_slashes("///"), "");
    assert_eq!(plugin_editor::trim_leading_slashes("a/b/"), "a/b/");
    assert_eq!(
        cmds(&editor.listed(&strings(&["a"]))),
        vec!["p log log INFO '  Files:'", "p log log INFO '    - a'"]
    );
    let out = e2.handle_action(Action::Show, &words("p editor show"));
    assert!(matches!(&out[1], plugin_editor::Output::ListFiles { folder } if folder == "./nas/editor"));
    let out = e2.handle_action(Action::Sync, &words("p editor sync"));
    assert!(matches!(&out[1], plugin_editor::Output::Sync { .. }));
    let out = e2.handle_action(Action::Help, &words("p editor help"));
    assert_eq!(out.len(), 4);
}

#[test]
fn sync_plan_compares_both_sides() {
    let meta = |name: &str, hash: &str, mtime: &str| FileMeta {
        filename: name.to_string(),
        hash: hash.to_string(),
        mtime: mtime.to_string(),
    };
    let local = folder_meta(
        "nas/editor",
        &vec![
            meta("same.txt", "h1", "2024-01-01T00:00:00+00:00"),
            meta("newer-here.txt", "h2", "2024-02-01T00:00:00+00:00"),
            meta("newer-there.txt", "h3", "2024-01-01T00:00:00+00:00"),
            meta("only-here.txt", "h4", "2024-01-01T00:00:00+00:00"),
        ],
    );
    let remote = folder_meta(
        "nas/editor",
        &vec![
            meta("same.txt", "h1", "2024-01-05T00:00:00+00:00"),
            meta("newer-here.txt", "x2", "2024-01-01T00:00:00+00:00"),
            meta("newer-there.txt", "x3", "2024-03-01T00:00:00+00:00"),
            meta("only-there.txt", "h5", "2024-01-01T00:00:00+00:00"),
        ],
    );
    let plan: Vec<String> = plugin_editor::sync_plan(&remote, &local)
        .iter()
        .map(|o| match o {
            plugin_editor::Output::Bus(e) => cmd_of(e),
            plugin_editor::Output::Upload { path } => format!("upload {path}"),
            plugin_editor::Output::Download { path } => format!("download {path}"),
            other => panic!("unexpected {:?}", other),
        })
        .collect();
    assert_eq!(
        plan,
        vec![
            "p log log INFO 'Server <= Local: `newer-here.txt`'",
            "upload ./nas/editor/newer-here.txt",
            "p log log INFO 'Server => Local: `newer-there.txt`'",
            "download ./nas/editor/newer-there.txt",
            "p log log INFO 'Server <= Local: `only-here.txt`'",
            "upload ./nas/editor/only-here.txt",
            "p log log INFO 'Server == Local: `same.txt`'",
            "p log log INFO 'Server => Local: `only-there.txt`'",
            "download ./nas/editor/only-there.txt",
        ]
    );
    let plan = plugin_editor::sync_plan(&local, &local);
    assert_eq!(plan.len(), 1);
    assert!(
        matches!(&plan[0], plugin_editor::Output::Bus(e) if cmd_of(e) == "p log log INFO 'Server == Local'")
    );
    assert_eq!(
        cmd_of(&plugin_editor::sync_unavailable()),
        "p log log WARN 'Server IP is not set'"
    );
    assert_eq!(
        cmd_of(&plugin_editor::sync_failed("timeout")),
        "p log log WARN 'Failed to get folder meta from server: timeout'"
    );
}

#[test]
fn panels_component_creates_and_draws() {
    let mut panels = plugin_panels::Plugin::new();
    let out = panels.handle_cmd("p panels create log plugin_log normal 0 0 50 50");
    assert!(matches!(out[..], [Effect::Redraw]));
    panels.handle_cmd("p panels create editor plugin_editor popup 10 10 80 80");
    panels.handle_cmd("p panels create command plugin_gui normal 0 0 0 0");
    panels.handle_cmd("p panels create mqtt plugin_mqtt normal 50 0 50 50");
    assert_eq!(panels.panels().len(), 4);
    assert!(panels.panels()[1].popup);

    panels.handle_cmd("p panels output_push log 'a [WARN] line'");
    panels.handle_cmd("p panels output_push log 'an [ERROR] line\nand more'");
    panels.handle_cmd("p panels sub_title log ' - 2'");
    panels.handle_cmd("p panels output_update command '> typed'");
    let drawn = panels.draw(AREA);
    let titles: Vec<&str> = drawn.iter().map(|d| d.title.as_str()).collect();
    assert_eq!(titles, vec!["command", "mqtt", "log - 2"]);
    assert!(!drawn[0].active && !drawn[1].active && drawn[2].active);
    assert_eq!(drawn[0].cursor, Some((8, 41)));
    assert_eq!(
        drawn[0].area,
        Rect {
            x: 0,
            y: 40,
            width: 100,
            height: 3
        }
    );
    let styles: Vec<LineStyle> = drawn[2].lines.iter().map(|l| l.style).collect();
    assert_eq!(styles, vec![LineStyle::Warn, LineStyle::Error, LineStyle::Plain]);

    // Tab skips the popup and the cycle closes.
    for expected in [2, 3, 0, 2] {
        panels.handle_cmd("p panels key tab");
        assert_eq!(panels.active_panel(), expected);
    }
    panels.handle_cmd("p panels key tab");
    panels.handle_cmd("p panels key tab");
    assert_eq!(panels.active_panel(), 0);
    let out = panels.handle_cmd("p panels key up");
    assert_eq!(cmds(&out), vec!["p plugin_log key up"]);

    panels.handle_cmd("p panels popup log");
    assert_eq!(panels.active_popup(), None);
    panels.handle_cmd("p panels popup editor");
    assert_eq!(panels.active_popup(), Some(1));
    let out = panels.handle_cmd("p panels key tab");
    assert!(out.is_empty());
    let out = panels.handle_cmd("p panels key down");
    assert_eq!(cmds(&out), vec!["p plugin_editor key down"]);
    let drawn = panels.draw(AREA);
    assert_eq!(drawn.last().unwrap().title, "editor");
    assert_eq!(drawn.last().unwrap().cursor, Some((11, 5)));
    panels.handle_cmd("p panels key ctrl_x");
    assert_eq!(panels.active_popup(), None);

    panels.handle_cmd("p panels key alt_s");
    panels.handle_cmd("p panels key alt_right");
    assert_eq!((panels.panels()[0].x, panels.panels()[0].height), (1, 51));
    panels.handle_cmd("p panels key alt_c");
    assert!(panels.panels()[0].output.is_empty());
}

#[test]
fn panels_component_trims_and_warns() {
    let mut panels = plugin_panels::Plugin::new();
    panels.handle_cmd("p panels create log plugin_log normal 0 0 50 50");
    for i in 0..305 {
        panels.handle_cmd(&format!("p panels output_push log {i}"));
    }
    assert_eq!(panels.panels()[0].output.len(), 300);
    assert_eq!(panels.panels()[0].output[0], "5");
    assert_eq!(panels.panels()[0].output[299], "304");
    let out = panels.handle_cmd("p panels create log plugin_log normal 0 0 50");
    assert_eq!(
        cmds(&out),
        vec!["p log log WARN 'Incomplete `create` command: [\"p\", \"panels\", \"create\", \"log\", \"plugin_log\", \"normal\", \"0\", \"0\", \"50\"]'"]
    );
    let out = panels.handle_cmd("p panels create log plugin_log normal 0 0 50 x");
    assert_eq!(
        cmds(&out),
        vec!["p log log WARN 'Invalid <x> <y> <width> <height> for `create` command: `p panels create log plugin_log normal 0 0 50 x`'"]
    );
    assert_eq!(panels.panels().len(), 1);
    let out = panels.handle_cmd("p panels show");
    assert_eq!(
        cmds(&out),
        vec![
            "p log log INFO 'show'",
            "p log log INFO '  Number of panels: 1'",
            "p log log INFO '  ID Title        Subtitle                       Popup Plugin      '",
            "p log log INFO '  0  log                                         false plugin_log  '",
            "p log log INFO '  Active panel: 0'",
        ]
    );
    let out = panels.handle_cmd("p panels insert x");
    assert_eq!(cmds(&out), vec!["p log log WARN 'Unsupported action: `insert`'"]);
    let out = panels.handle_cmd("p panels");
    assert_eq!(out.len(), 1);
    let out = panels.handle_cmd("p panels key tab");
    assert!(matches!(out[..], [Effect::Redraw]));
}

#[test]
fn devices_come_on_board() {
    let mut devices = plugin_devices::Plugin::new(Mode::Gui);
    let out = devices.handle_cmd_update_at(
        &words("p devices update onboard pi5 1"),
        100,
        "2024-01-01 00:00:00 +00:00",
        &None,
    );
    let sent: Vec<String> = out
        .iter()
        .map(|o| match o {
            plugin_devices::Output::Bus(e) => cmd_of(e),
            other => panic!("unexpected {:?}", other),
        })
        .collect();
    assert_eq!(
        sent,
        vec![
            "p log log INFO 'pi5 On at 2024-01-01 00:00:00 +00:00'",
            "p system update",
            "p infos update devices onboard pi5 1",
        ]
    );
    // No news, no noise.
    let out = devices.handle_cmd_update_at(&words("p devices update onboard pi5 1"), 101, "t", &None);
    assert!(out.is_empty());
    assert_eq!(devices.devices()[0].ts, 101);
    let out = devices.handle_cmd_update_at(&words("p devices update onboard pi5 0"), 102, "t", &None);
    assert_eq!(out.len(), 2);
    assert!(!devices.devices()[0].onboard);

    devices.handle_cmd_update_at(&words("p devices update version pi5 1.2.3"), 103, "t", &None);
    devices.handle_cmd_update_at(&words("p devices update tailscale_ip pi5 100.1.2.3"), 104, "t", &None);
    devices.handle_cmd_update_at(&words("p devices update app_uptime pi5 3661"), 105, "t", &None);
    devices.handle_cmd_update_at(
        &words("p devices update temperature pi5 45.25"),
        106,
        "t",
        &Some("45.2°C".to_string()),
    );
    let d = &devices.devices()[0];
    assert_eq!(d.version.as_deref(), Some("1.2.3"));
    assert_eq!(d.tailscale_ip.as_deref(), Some("100.1.2.3"));
    assert_eq!(d.app_uptime, Some(3661));
    assert_eq!(d.temperature.as_deref(), Some("45.2°C"));
    assert_eq!(d.ts, 106);
    devices.handle_cmd_update_at(&words("p devices update app_uptime pi5 soon"), 107, "t", &None);
    assert_eq!(devices.devices()[0].app_uptime, None);
    devices.handle_cmd_update_at(&words("p devices update app_uptime pi5 3661"), 107, "t", &None);
    // Reports of unknown devices are dropped.
    let out = devices.handle_cmd_update_at(&words("p devices update version nobody 1"), 108, "t", &None);
    assert!(out.is_empty());
    assert_eq!(devices.devices().len(), 1);

    let out = devices.handle_cmd_show();
    assert_eq!(out.len(), 3);
    match &out[1] {
        plugin_devices::Output::Bus(e) => assert_eq!(
            cmd_of(e),
            "p log log INFO '  Name         Onboard Version  Tailscale IP    Temp   App uptime   Last update     '"
        ),
        other => panic!("unexpected {:?}", other),
    }
    match &out[2] {
        plugin_devices::Output::Bus(e) => assert!(cmd_of(e).starts_with(
            "p log log INFO '  pi5          Off     1.2.3    100.1.2.3       45.2°C 0d 01:01:01  "
        )),
        other => panic!("unexpected {:?}", other),
    }

    let out = devices.handle_cmd(&strings(&["p", "devices", "cmd", "pi5", "p log show"]));
    assert!(
        matches!(&out[1], plugin_devices::Output::PostCmd { device_name, ip, cmd } if device_name == "pi5" && ip == "100.1.2.3" && cmd == "p log show")
    );
    let out = devices.handle_cmd(&words("p devices cmd nobody x"));
    assert!(
        matches!(&out[0], plugin_devices::Output::Bus(e) if cmd_of(e) == "p log log WARN 'Device `nobody` not found'")
    );
    let out = devices.handle_line("p devices update colour pi5 red", 0, &None);
    assert!(
        matches!(&out[0], plugin_devices::Output::Bus(e) if cmd_of(e) == "p log log WARN 'Invalid <device_key> (`{device_key}`) for `update` command: `p devices update colour pi5 red`'")
    );
    let out = devices.handle_line("p devices help", 0, &None);
    assert_eq!(out.len(), 4);
    assert_eq!(plugin_devices::onboard_str(true), "On");
    assert_eq!(plugin_devices::onboard_str(false), "Off");
    assert_eq!(plugin_devices::version_str(&None), "N/A");
    assert_eq!(plugin_devices::tailscale_ip_str(&Some("x".to_string())), "x");
    assert_eq!(plugin_devices::app_uptime_str(Some(60)), "0d 00:01:00");
    assert_eq!(plugin_devices::app_uptime_str(None), "N/A");
}

#[test]
fn devices_without_panels_do_not_tell_the_info_panel() {
    let mut devices = plugin_devices::Plugin::new(Mode::Cli);
    let out = devices.handle_cmd_update_at(&words("p devices update onboard pi5 0"), 1, "t", &None);
    assert_eq!(out.len(), 1);
    let out = devices.handle_cmd_update(&words("p devices update version pi5 2"), 1, &None);
    assert!(out.is_empty());
}

#[test]
fn mqtt_topics() {
    assert_eq!(plugin_mqtt::topic("pi5", "onboard"), "tln/pi5/onboard");
    assert_eq!(
        plugin_mqtt::parse_topic("tln/pi5/onboard"),
        Some(("pi5".to_string(), "onboard".to_string()))
    );
    assert_eq!(
        plugin_mqtt::parse_topic("tln/a b/c\nd"),
        Some(("a b".to_string(), "c\nd".to_string()))
    );
    for bad in [
        "", "tln", "tln/", "tln//", "tln/a", "tln/a/", "tln//b", "tln/a/b/", "tln/a/b/c", "xtln/a/b",
        "tlm/a/b", "TLN/a/b", "/tln/a/b",
    ] {
        assert_eq!(plugin_mqtt::parse_topic(bad), None, "{bad:?}");
    }
}

#[test]
fn mqtt_reports_what_comes_in() {
    let out = plugin_mqtt::process_event_publish(Mode::Gui, "12:00:00", "tln/pi5/version", "1.2.3");
    assert_eq!(
        cmds(&out),
        vec![
            "p mqtt output_push '12:00:00 [I] 📩 pub:: version pi5 1.2.3'",
            "p devices update version pi5 1.2.3",
        ]
    );
    let out = plugin_mqtt::process_event_publish(Mode::Cli, "12:00:00", "tln/pi5/colour", "red");
    assert_eq!(cmds(&out), vec!["p log log ERROR '📩 pub:: colour pi5 red'"]);
    let out = plugin_mqtt::process_event_publish(Mode::Gui, "12:00:00", "other/pi5/version", "1");
    assert!(out.is_empty());
    assert_eq!(
        cmd_of(&plugin_mqtt::process_event_error(Mode::Gui, "t", "Io(reset)")),
        "p mqtt output_push 't [E] ❌ Event loop error: Io(reset)'"
    );
    assert_eq!(
        cmd_of(&plugin_mqtt::output_push(Mode::Cli, Level::Warn, "t", "careful")),
        "p log log WARN 'careful'"
    );
}

#[test]
fn mqtt_publishes_when_connected() {
    let mut mqtt = plugin_mqtt::PluginUnit::new(Mode::Gui);
    let parts = strings(&["p", "mqtt", "publish", "false", "version", "1.2.3"]);
    assert!(mqtt.handle_action(Action::Publish, &parts, "pi5").is_empty());
    let out = mqtt.handle_action(Action::Restart, &words("p mqtt restart"), "pi5");
    assert_eq!(out.len(), 6);
    assert!(
        matches!(&out[5], plugin_mqtt::Output::Connect { client_id, will_topic, subscribe } if client_id == "pi5" && will_topic == "tln/pi5/onboard" && subscribe == "tln/#")
    );
    let out = mqtt.handle_action(Action::Publish, &parts, "pi5");
    assert!(
        matches!(&out[0], plugin_mqtt::Output::Publish { topic, retain, payload } if topic == "tln/pi5/version" && !retain && payload == "1.2.3")
    );
    let retained = strings(&["p", "mqtt", "publish", "true", "onboard", "1"]);
    let out = mqtt.handle_action(Action::Publish, &retained, "pi5");
    assert!(matches!(&out[0], plugin_mqtt::Output::Publish { retain: true, .. }));
    let slash = strings(&["p", "mqtt", "publish", "true", "a/b", "1"]);
    assert!(mqtt.handle_action(Action::Publish, &slash, "pi5").is_empty());
    assert_eq!(
        cmds(&mqtt.published("t", "tln/pi5/version", "1.2.3", &None)),
        vec!["p mqtt output_push 't [I] 📤 pub:: version pi5 1.2.3'"]
    );
    assert_eq!(
        cmds(&mqtt.published("t", "tln/pi5/version", "1.2.3", &Some("Closed".to_string()))),
        vec!["p log log WARN 'Failed to publish topic (`tln/pi5/version`) payload (`1.2.3`). Err: Closed'"]
    );
    mqtt.handle_action(Action::Disconnected, &words("p mqtt disconnected"), "pi5");
    assert!(mqtt.handle_action(Action::Publish, &parts, "pi5").is_empty());
    for i in 0..301 {
        mqtt.handle_action(
            Action::OutputPush,
            &strings(&["p", "mqtt", "output_push", &format!("line {i}")]),
            "pi5",
        );
    }
    assert_eq!(mqtt.logs().len(), 300);
    assert_eq!(mqtt.logs()[0], "line 1");
    assert_eq!(mqtt.draw(AREA, false).title, "mqtt");
    let out = mqtt.handle_action(Action::Show, &words("p mqtt show"), "pi5");
    assert!(
        matches!(&out[2], plugin_mqtt::Output::Bus(e) if cmd_of(e) == "p log log INFO '  MQTT Client connected: false'")
    );
}

#[test]
fn system_publishes_itself() {
    let mut system = plugin_system::PluginUnit::new(SystemInfo {
        ts_start_uptime: 1000,
        tailscale_ip: None,
        temperature: None,
    });
    let out = system.handle_action_update(Some("100.1.2.3".to_string()), None, 4661);
    assert_eq!(
        cmds(&out),
        vec![
            "p mqtt publish false onboard '1'",
            "p mqtt publish false version '0.1.0'",
            "p mqtt publish false tailscale_ip '100.1.2.3'",
            "p mqtt publish false temperature '0.0'",
            "p mqtt publish false app_uptime '3661'",
        ]
    );
    let out = system.handle_action_show(4661);
    assert_eq!(
        cmds(&out),
        vec![
            "p log log INFO 'show'",
            "p log log INFO '  Tailscale IP: 100.1.2.3'",
            "p log log INFO '  App uptime: 0d 01:01:01'",
            "p log log INFO '  Temperature: N/A'",
        ]
    );
    assert_eq!(system.handle_action_help().len(), 2);
    assert_eq!(
        cmds(&system.unsupported(Action::Gui)),
        vec!["p log log WARN 'Unsupported action: `gui`'"]
    );
    assert!(plugin_system::is_cpu_label("CPU die"));
    assert!(plugin_system::is_cpu_label("acpitz temp1"));
    assert!(plugin_system::is_cpu_label("k10temp Tcpu"));
    assert!(!plugin_system::is_cpu_label("nvme composite"));
    assert!(!plugin_system::is_cpu_label(""));
    assert_eq!(DeviceKey::Onboard.as_ref(), "onboard");
}
