use cng4::arguments::Mode;
use cng4::messages::{Action, Cmd, Data, Effect, Key, Msg};
use cng4::plugins::plugin_editor;
use cng4::plugins::plugins_main::{
    handle_action_gui, handle_action_key_position, panel_area, DrawCall, Plugins,
};
use cng4::utils::panel::{caculate_position, panel_rect, PanelInfo, PanelType, Rect};

fn msg(text: &str) -> Msg {
    Msg::at(
        0,
        "test",
        Data::Cmd(Cmd {
            cmd: text.to_string(),
        }),
    )
}

fn words(line: &str) -> Vec<String> {
    line.split(' ').map(|w| w.to_string()).collect()
}

fn send(plugins: &mut Plugins, line: &str) -> Vec<Effect> {
    plugins.handle_cmd(&msg(line))
}

fn sent(effect: &Effect) -> (String, String) {
    match effect {
        Effect::Send { origin, cmd } => (origin.clone(), cmd.clone()),
        other => panic!("not a command: {:?}", other),
    }
}

/// Handles `gui` as a component would: keeps the panel and lists it.
fn gui(plugins: &mut Plugins, name: &str, rest: &str) {
    let line = format!("p {name} gui {rest}");
    let (info, effect) = handle_action_gui(name, &words(&line)).expect("valid gui command");
    assert!(plugins.set_panel_info(name, info));
    let (origin, cmd) = sent(&effect);
    assert_eq!(origin, name);
    assert_eq!(cmd, format!("p plugins insert_panel {name}"));
    send(plugins, &cmd);
}

fn registry() -> Plugins {
    let mut plugins = Plugins::new(Mode::Gui, "script.toml");
    for name in ["log", "mqtt", "editor", "infos", "command", "cfg"] {
        plugins.insert(name).unwrap();
    }
    plugins
}

#[test]
fn tab_twice_returns_to_the_first_panel() {
    let mut plugins = registry();
    gui(&mut plugins, "log", "normal 0 0 50 50");
    gui(&mut plugins, "mqtt", "normal 50 0 50 50");
    assert_eq!(plugins.panels(), &["log".to_string(), "mqtt".to_string()]);
    assert_eq!(plugins.active_panel(), 0);
    let effects = send(&mut plugins, "p plugins key tab");
    assert!(matches!(effects[..], [Effect::Redraw]));
    assert_eq!(plugins.active_panel(), 1);
    send(&mut plugins, "p plugins key tab");
    assert_eq!(plugins.active_panel(), 0);
}

#[test]
fn tab_skips_popups() {
    let mut plugins = registry();
    gui(&mut plugins, "editor", "popup 10 10 80 80");
    gui(&mut plugins, "log", "normal 0 0 50 50");
    gui(&mut plugins, "infos", "popup 0 0 10 10");
    gui(&mut plugins, "mqtt", "normal 50 0 50 50");
    for expected in [1, 3, 1, 3, 1] {
        send(&mut plugins, "p plugins key tab");
        assert_eq!(plugins.active_panel(), expected);
    }
}

#[test]
fn tab_with_only_popups_or_no_panels_changes_nothing() {
    let mut plugins = registry();
    let effects = send(&mut plugins, "p plugins key tab");
    assert!(matches!(effects[..], [Effect::Redraw]));
    assert_eq!(plugins.active_panel(), 0);
    gui(&mut plugins, "editor", "popup 10 10 80 80");
    send(&mut plugins, "p plugins key tab");
    assert_eq!(plugins.active_panel(), 0);
}

#[test]
fn popup_takes_the_keys_and_ctrl_x_gives_them_back() {
    let mut plugins = registry();
    gui(&mut plugins, "log", "normal 0 0 50 50");
    gui(&mut plugins, "editor", "popup 10 10 80 80");
    let effects = send(&mut plugins, "p plugins key up");
    assert_eq!(
        sent(&effects[0]),
        ("plugins".to_string(), "p log key up".to_string())
    );

    let effects = send(&mut plugins, "p plugins popup editor");
    assert_eq!(effects.len(), 2);
    assert_eq!(sent(&effects[0]).1, "p log log INFO 'popup'");
    assert!(matches!(effects[1], Effect::Redraw));
    assert_eq!(plugins.active_popup(), Some(1));

    // Tab does nothing while the popup is open.
    send(&mut plugins, "p plugins key tab");
    assert_eq!(plugins.active_panel(), 0);

    let effects = send(&mut plugins, "p plugins key ctrl_x");
    assert_eq!(effects.len(), 1);
    assert_eq!(
        sent(&effects[0]),
        ("plugins".to_string(), "p editor key ctrl_x".to_string())
    );
    // The popup answers ctrl_x by closing itself.
    let mut editor = plugin_editor::PluginUnit::new();
    let answers = editor.handle_action(Action::Key, &words(&sent(&effects[0]).1));
    assert_eq!(answers.len(), 2);
    for answer in &answers {
        match answer {
            plugin_editor::Output::Bus(effect) => {
                send(&mut plugins, &sent(effect).1);
            }
            other => panic!("unexpected {:?}", other),
        }
    }
    assert_eq!(plugins.active_popup(), None);
    let effects = send(&mut plugins, "p plugins key up");
    assert_eq!(sent(&effects[0]).1, "p log key up");
}

#[test]
fn second_popup_replaces_the_first() {
    let mut plugins = registry();
    gui(&mut plugins, "log", "normal 0 0 50 50");
    gui(&mut plugins, "editor", "popup 10 10 80 80");
    gui(&mut plugins, "infos", "popup 20 20 60 60");
    send(&mut plugins, "p plugins popup editor");
    assert_eq!(plugins.active_popup(), Some(1));
    send(&mut plugins, "p plugins popup infos");
    assert_eq!(plugins.active_popup(), Some(2));
    let effects = send(&mut plugins, "p plugins key down");
    assert_eq!(sent(&effects[0]).1, "p infos key down");
}

#[test]
fn popup_that_is_no_popup_is_a_warning() {
    let mut plugins = registry();
    gui(&mut plugins, "log", "normal 0 0 50 50");
    for name in ["log", "nothing"] {
        let effects = send(&mut plugins, &format!("p plugins popup {name}"));
        assert_eq!(effects.len(), 3);
        assert_eq!(
            sent(&effects[1]).1,
            format!("p log log WARN 'Popup panel `{name}` not found.'")
        );
        assert!(matches!(effects[2], Effect::Redraw));
        assert_eq!(plugins.active_popup(), None);
    }
}

#[test]
fn key_without_code_or_panel_is_a_warning() {
    let mut plugins = registry();
    let effects = send(&mut plugins, "p plugins key");
    assert_eq!(
        sent(&effects[0]).1,
        "p log log WARN 'Missing <key> for `key` command: `p plugins key`'"
    );
    let effects = send(&mut plugins, "p plugins key f13");
    assert_eq!(
        sent(&effects[0]).1,
        "p log log WARN 'Invalid <key> (`f13`) for `key` command: `p plugins key f13`'"
    );
    let effects = send(&mut plugins, "p plugins key up");
    assert_eq!(
        sent(&effects[0]).1,
        "p log log WARN 'No panel to send key `up` to.'"
    );
}

#[test]
fn gui_geometry_becomes_rounded_cells() {
    let line = words("p log gui normal 10 20 30 40");
    let (info, _) = handle_action_gui("log", &line).unwrap();
    assert_eq!(
        info,
        PanelInfo {
            panel_type: PanelType::Normal,
            x: 10,
            y: 20,
            w: 30,
            h: 40
        }
    );
    for (width, height) in [(80u16, 24u16), (133, 41), (1, 4), (200, 3), (65535, 65535)] {
        let area = Rect {
            x: 0,
            y: 0,
            width,
            height,
        };
        let usable = height - 3;
        let drawn = panel_area("log", &info, area);
        assert_eq!(drawn.x, (width as f64 * 0.10).round() as u16);
        assert_eq!(drawn.y, (usable as f64 * 0.20).round() as u16);
        assert_eq!(drawn.x as f32, (width as f32 * 10.0 / 100.0).round());
        assert_eq!(drawn.y as f32, (usable as f32 * 20.0 / 100.0).round());
    }
    let area = Rect {
        x: 0,
        y: 0,
        width: 80,
        height: 24,
    };
    assert_eq!(
        panel_area("log", &info, area),
        Rect {
            x: 8,
            y: 4,
            width: 24,
            height: 8
        }
    );
    assert_eq!(caculate_position(area, 10, 20, 30, 40), (8, 4, 24, 8));
    assert_eq!(caculate_position(area, 50, 50, 100, 100), (40, 11, 80, 21));
    // 15 % of 50 columns is 7.5: a half rounds up.
    assert_eq!(
        caculate_position(
            Rect {
                x: 0,
                y: 0,
                width: 50,
                height: 3
            },
            15,
            15,
            0,
            0
        ),
        (8, 0, 0, 0)
    );
}

#[test]
fn rounding_agrees_with_floating_point_for_all_percentages() {
    for total in [0u16, 1, 2, 3, 7, 24, 50, 80, 99, 100, 101, 250, 1000, 40000, 65535] {
        for percent in 0..=100u16 {
            let area = Rect {
                x: 0,
                y: 0,
                width: total,
                height: 3,
            };
            let expected = (total as f32 * percent as f32 / 100.0).round() as u16;
            assert_eq!(caculate_position(area, percent, 0, 0, 0).0, expected);
        }
    }
}

#[test]
fn gui_command_is_validated() {
    let err = handle_action_gui("log", &words("p log gui normal 10 20")).unwrap_err();
    assert_eq!(
        sent(&err),
        (
            "log".to_string(),
            "p log log WARN 'Missing <panel_type> <x> <y> <width> <height> for `gui` command: `p log gui normal 10 20`'"
                .to_string()
        )
    );
    for bad in [
        "p log gui round 10 20 30 40",
        "p log gui normal 101 20 30 40",
        "p log gui normal 10 -1 30 40",
        "p log gui normal 10 20 x 40",
        "p log gui normal 10 20 30 ",
        "p log gui normal 10 20 30 4.5",
    ] {
        let err = handle_action_gui("log", &words(bad)).unwrap_err();
        assert_eq!(
            sent(&err).1,
            format!(
                "p log log WARN 'Invalid <panel_type> <x> <y> <width> <height> for `gui` command: `{bad}`'"
            )
        );
    }
    let (info, _) = handle_action_gui("editor", &words("p editor gui popup 0 100 +7 007")).unwrap();
    assert_eq!(
        info,
        PanelInfo {
            panel_type: PanelType::Popup,
            x: 0,
            y: 100,
            w: 7,
            h: 7
        }
    );
}

#[test]
fn keys_move_and_resize_with_floors() {
    let at = |key| handle_action_key_position("log", key, 5, 5, 20, 10).0;
    assert_eq!(at(Key::AltUp), (5, 4, 20, 10));
    assert_eq!(at(Key::AltDown), (5, 6, 20, 10));
    assert_eq!(at(Key::AltLeft), (4, 5, 20, 10));
    assert_eq!(at(Key::AltRight), (6, 5, 20, 10));
    assert_eq!(at(Key::AltW), (5, 5, 20, 9));
    assert_eq!(at(Key::AltS), (5, 5, 20, 11));
    assert_eq!(at(Key::AltA), (5, 5, 19, 10));
    assert_eq!(at(Key::AltD), (5, 5, 21, 10));
    assert_eq!(at(Key::Tab), (5, 5, 20, 10));
    let floor = |key| handle_action_key_position("log", key, 0, 0, 10, 3).0;
    assert_eq!(floor(Key::AltUp), (0, 0, 10, 3));
    assert_eq!(floor(Key::AltLeft), (0, 0, 10, 3));
    assert_eq!(floor(Key::AltW), (0, 0, 10, 3));
    assert_eq!(floor(Key::AltA), (0, 0, 10, 3));
    let top = |key| handle_action_key_position("log", key, 65535, 65535, 65535, 65535).0;
    assert_eq!(top(Key::AltDown), (65535, 65535, 65535, 65535));
    assert_eq!(top(Key::AltD), (65535, 65535, 65535, 65535));
    let (_, effect) = handle_action_key_position("mqtt", Key::AltUp, 1, 1, 1, 1);
    assert_eq!(
        sent(&effect),
        ("mqtt".to_string(), "p plugins redraw".to_string())
    );
}

#[test]
fn panel_rect_clamps_to_the_area() {
    let area = Rect {
        x: 2,
        y: 1,
        width: 80,
        height: 24,
    };
    assert_eq!(
        panel_rect(10, 5, 30, 10, area),
        Rect {
            x: 12,
            y: 6,
            width: 30,
            height: 10
        }
    );
    assert_eq!(
        panel_rect(70, 20, 30, 10, area),
        Rect {
            x: 72,
            y: 21,
            width: 10,
            height: 4
        }
    );
    assert_eq!(
        panel_rect(90, 30, 30, 10, area),
        Rect {
            x: 92,
            y: 31,
            width: 0,
            height: 0
        }
    );
    assert_eq!(
        panel_rect(65535, 65535, 1, 1, area),
        Rect {
            x: 65535,
            y: 65535,
            width: 0,
            height: 0
        }
    );
}

#[test]
fn draw_order_is_inactive_then_active_then_popup() {
    let mut plugins = registry();
    gui(&mut plugins, "log", "normal 0 0 50 50");
    gui(&mut plugins, "editor", "popup 10 10 80 80");
    gui(&mut plugins, "mqtt", "normal 50 0 50 50");
    gui(&mut plugins, "command", "normal 0 0 0 0");
    send(&mut plugins, "p plugins insert_panel ghost");
    let area = Rect {
        x: 0,
        y: 0,
        width: 100,
        height: 43,
    };
    let calls = plugins.draw(area);
    let order: Vec<(usize, bool)> = calls.iter().map(|c| (c.panel, c.active)).collect();
    assert_eq!(order, vec![(2, false), (3, false), (0, true)]);
    assert_eq!(
        calls[0],
        DrawCall {
            panel: 2,
            plugin: 1,
            area: Rect {
                x: 50,
                y: 0,
                width: 50,
                height: 20
            },
            active: false
        }
    );
    // The command panel is pinned below the usable rows.
    assert_eq!(
        calls[1].area,
        Rect {
            x: 0,
            y: 40,
            width: 100,
            height: 3
        }
    );
    assert_eq!(calls[1].plugin, 4);

    send(&mut plugins, "p plugins key tab");
    send(&mut plugins, "p plugins popup editor");
    let calls = plugins.draw(area);
    let order: Vec<(usize, bool)> = calls.iter().map(|c| (c.panel, c.active)).collect();
    assert_eq!(order, vec![(0, false), (3, false), (2, true), (1, true)]);
    assert_eq!(
        calls[3].area,
        Rect {
            x: 10,
            y: 4,
            width: 80,
            height: 32
        }
    );
    let effects = send(&mut plugins, "p plugins redraw");
    assert!(matches!(effects[..], [Effect::Redraw]));
}

#[test]
fn tiny_terminal_has_no_usable_rows() {
    let area = Rect {
        x: 0,
        y: 0,
        width: 10,
        height: 2,
    };
    assert_eq!(caculate_position(area, 50, 50, 50, 50), (5, 0, 5, 0));
    let info = PanelInfo::new(PanelType::Normal);
    assert_eq!(
        panel_area("command", &info, area),
        Rect {
            x: 0,
            y: 0,
            width: 10,
            height: 2
        }
    );
}
