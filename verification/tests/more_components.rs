use cng4::arguments::Mode;
use cng4::globals::Global;
use cng4::messages::{Action, Effect};
use cng4::plugins::plugin_cfg;
use cng4::plugins::plugin_cli;
use cng4::plugins::plugin_infos;
use cng4::plugins::plugin_music;
use cng4::plugins::plugin_ping;
use cng4::plugins::plugin_script;
use cng4::plugins::plugin_time;
use cng4::plugins::plugin_web;
use cng4::plugins::plugin_wol;
use cng4::text;
use cng4::utils::ffmpeg::{self, Ffmpeg};
use cng4::utils::panel::{PanelInfo, PanelType, Rect};
use cng4::utils::weather::{weather_code_emoji, weather_code_str};
use cng4::utils::yt_dlp::{self, Downloaded, YtDlp};
use std::path::{Component, Path};

fn words(line: &str) -> Vec<String> {
    line.split(' ').map(|w| w.to_string()).collect()
}

fn cmd_of(effect: &Effect) -> String {
    match effect {
        Effect::Send { cmd, .. } => cmd.clone(),
        other => panic!("not a command: {:?}", other),
    }
}

fn cmds(effects: &[Effect]) -> Vec<String> {
    effects.iter().map(cmd_of).collect()
}

const AREA: Rect = Rect {
    x: 0,
    y: 0,
    width: 100,
    height: 43,
};

#[test]
fn weather_codes_in_words_and_pictures() {
    assert_eq!(weather_code_str(0), "晴天");
    assert_eq!(weather_code_str(3), "陰天");
    assert_eq!(weather_code_str(55), "毛毛雨（大）");
    assert_eq!(weather_code_str(99), "雷雨夾大冰雹");
    assert_eq!(weather_code_str(4), "未知天氣");
    assert_eq!(weather_code_str(255), "未知天氣");
    assert_eq!(weather_code_emoji(0), "☀️");
    assert_eq!(weather_code_emoji(2), "⛅");
    assert_eq!(weather_code_emoji(95), "⛈️");
    assert_eq!(weather_code_emoji(100), "未知天氣");
    let known = [
        0u8, 1, 2, 3, 45, 48, 51, 53, 55, 56, 57, 61, 63, 65, 66, 67, 71, 73, 75, 77, 80, 81, 82,
        85, 86, 95, 96, 99,
    ];
    for code in 0..=255u8 {
        assert_eq!(
            weather_code_str(code) == "未知天氣",
            !known.contains(&code),
            "{code}"
        );
        assert_eq!(
            weather_code_emoji(code) == "未知天氣",
            !known.contains(&code),
            "{code}"
        );
    }
}

#[test]
fn trimming_and_words_agree_with_std() {
    for s in [
        "", " ", "a", " a ", "\t a b \n", "a  b\u{3000}c", "\u{85}x\u{a0}", "  multiple   spaces here  ",
        "ffmpeg version 4.4.2-0ubuntu0.22.04.1 Copyright", "x\u{200b}y", "\u{2028}",
    ] {
        assert_eq!(text::trim(s), s.trim(), "{s:?}");
        assert_eq!(text::trim_end(s), s.trim_end(), "{s:?}");
        let expected: Vec<String> = s.split_whitespace().map(String::from).collect();
        assert_eq!(text::split_whitespace(s), expected, "{s:?}");
    }
    for c in (0..0x3100u32).filter_map(char::from_u32) {
        assert_eq!(text::space(c), c.is_whitespace(), "{:?}", c);
    }
    for c in [0xfeffu32, 0x1d173, 0x10ffff, 0xe0020].into_iter().filter_map(char::from_u32) {
        assert_eq!(text::space(c), c.is_whitespace(), "{:?}", c);
    }
}

#[test]
fn programs_report_their_versions() {
    assert_eq!(
        ffmpeg::parse_version("ffmpeg version 4.4.2-0ubuntu0.22.04.1 Copyright (c)\nbuilt with gcc\n"),
        Some("4.4.2-0ubuntu0.22.04.1".to_string())
    );
    assert_eq!(ffmpeg::parse_version("ffmpeg version"), None);
    assert_eq!(ffmpeg::parse_version(""), None);
    assert_eq!(ffmpeg::parse_version("\nffmpeg version 1"), None);
    assert_eq!(yt_dlp::parse_version("2024.08.06\n"), "2024.08.06");
    assert_eq!(yt_dlp::shorten("https://example.com/watch?v=12345"), "https...=12345");
    assert_eq!(yt_dlp::shorten("short.url"), "short.url");
    assert_eq!(
        yt_dlp::download_args("https://x"),
        vec![
            "--output",
            "./yt_dlp_cache/%(title)s.%(ext)s",
            "--embed-thumbnail",
            "--add-metadata",
            "--extract-audio",
            "--audio-format",
            "mp3",
            "--audio-quality",
            "320K",
            "https://x",
        ]
    );
    let mut y = YtDlp::new("./nas/music");
    let mut f = Ffmpeg::new();
    assert_eq!(
        cmds(&y.handle_cmd_show()),
        vec![
            "p log log INFO 'show'",
            "p log log INFO '  available: false'",
            "p log log INFO '  version: N/A'",
            "p log log INFO '  output_dir: `./nas/music`'",
        ]
    );
    y.is_available = true;
    y.version = Some("2024.08.06".to_string());
    f.is_available = true;
    f.version = Some("4.4.2".to_string());
    assert_eq!(
        cmds(&f.handle_cmd_show()),
        vec![
            "p log log INFO 'show'",
            "p log log INFO '  available: true'",
            "p log log INFO '  version: 4.4.2'",
        ]
    );
    let url = "https://example.com/watch?v=12345";
    assert_eq!(cmd_of(&y.download(url)), "p log log INFO 'Downloading from `https...=12345`...'");
    assert_eq!(
        cmd_of(&y.downloaded(url, Downloaded::Done)),
        "p log log INFO 'Downloaded from `https...=12345`'"
    );
    assert_eq!(
        cmd_of(&y.downloaded(url, Downloaded::Failed)),
        "p log log WARN 'Failed to download from `https...=12345`'"
    );
    assert_eq!(
        cmd_of(&y.downloaded(url, Downloaded::NotStarted)),
        "p log log WARN 'Failed to execute `yt-dlp` command'"
    );

    let music = plugin_music::PluginUnit::new(y, f);
    assert!(music.is_available);
    let shown = music.handle_action_show();
    assert_eq!(shown.len(), 10);
    assert!(matches!(&shown[9], plugin_music::Output::ListFolder { folder } if folder == "./nas/music"));
    assert!(matches!(&shown[1], plugin_music::Output::Bus(e) if cmd_of(e) == "p log log INFO '  available: true'"));
    assert!(matches!(&shown[5], plugin_music::Output::Bus(e) if cmd_of(e) == "p log log INFO '  output_dir: `./nas/music`'"));
    let out = music.handle_action_download(&words("p music download https://example.com/watch?v=12345"));
    assert!(matches!(&out[2], plugin_music::Output::Download { url } if url == "https://example.com/watch?v=12345"));
    let out = music.handle_action_download(&words("p music download"));
    assert!(
        matches!(&out[1], plugin_music::Output::Bus(e) if cmd_of(e) == "p log log WARN 'Missing <url> for `download` command: `p music download`'")
    );
    let out = music.handle_action_upload(&None);
    assert!(matches!(&out[1], plugin_music::Output::Bus(e) if cmd_of(e) == "p log log WARN 'Server IP is not set'"));
    let out = music.handle_action_upload(&Some("1.2.3.4".to_string()));
    assert!(
        matches!(&out[1], plugin_music::Output::UploadAll { server_ip, source_dir, target_dir } if server_ip == "1.2.3.4" && source_dir == "./nas/music" && target_dir == "./nas/upload")
    );
    assert_eq!(music.handle_action_help().len(), 9);
    assert!(matches!(&music.handle_action_remove()[1], plugin_music::Output::RemoveAll { .. }));
    assert_eq!(
        cmd_of(&plugin_music::uploading(3, "nas/upload/a-very-long-file-name.mp3")),
        "p log log INFO '  Uploading file #3: `nas/upload/a-very-lo...`'"
    );
    assert_eq!(cmd_of(&plugin_music::uploaded(3, "a.mp3")), "p log log INFO '  Uploaded file #3: `a.mp3`'");
    assert_eq!(cmd_of(&plugin_music::uploaded_all(12)), "p log log INFO '  Uploaded 12 (all) files done.'");
    let unavailable = plugin_music::PluginUnit::new(YtDlp::new("x"), Ffmpeg::new());
    let out = unavailable.handle_action_download(&words("p music download u"));
    assert!(matches!(&out[1], plugin_music::Output::Bus(e) if cmd_of(e) == "p log log WARN 'Not available'"));
}

#[test]
fn script_lines_become_commands() {
    let script = "p plugins insert log\n\n   p log gui normal 0 0 50 50  \r\n\t\nq";
    assert_eq!(
        cmds(&plugin_script::script_commands(script)),
        vec!["p plugins insert log", "p log gui normal 0 0 50 50", "q"]
    );
    assert!(plugin_script::script_commands("").is_empty());
    let unit = plugin_script::PluginUnit::new(Mode::Cli, "script.toml");
    let config = plugin_script::Config {
        script_gui: "p plugins insert gui".to_string(),
        script_cli: "p plugins insert cli\np cli show".to_string(),
    };
    assert_eq!(
        cmds(&unit.init(&config)),
        vec![
            "p log log INFO '  Running scripts for mode: Cli'",
            "p plugins insert cli",
            "p cli show",
        ]
    );
    assert_eq!(
        cmds(&unit.handle_action(Action::Show)),
        vec![
            "p log log INFO 'show'",
            "p log log INFO '  Mode: Cli'",
            "p log log INFO '  Script: script.toml'",
        ]
    );
    assert_eq!(
        cmds(&unit.handle_action(Action::Gui)),
        vec!["p log log WARN 'Unsupported action: `gui`'"]
    );
}

#[test]
fn configuration_sets_the_shared_names() {
    let cfg = plugin_cfg::PluginUnit::new();
    let mut g = Global::new();
    let out = cfg.init(
        &plugin_cfg::Config {
            name: "pi5".to_string(),
            server: "nas".to_string(),
        },
        &mut g,
    );
    assert_eq!(
        cmds(&out),
        vec!["p log log INFO '  Name: pi5'", "p log log INFO '  Server: nas'"]
    );
    assert_eq!(g.sys_name, "pi5");
    assert_eq!(g.server, "nas");
    assert_eq!(
        cmds(&cfg.handle_action(Action::Show, &g)),
        vec![
            "p log log INFO 'show'",
            "p log log INFO '  Script: cfg.toml'",
            "p log log INFO '  Name: pi5'",
            "p log log INFO '  Server: nas'",
            "p log log INFO '  Server IP: '",
        ]
    );
    assert_eq!(cmds(&cfg.handle_action(Action::Help, &g)), vec!["p log log INFO 'help'"]);
}

#[test]
fn line_interface() {
    assert_eq!(plugin_cli::prompt("12:00:00"), "12:00:00 > ");
    assert_eq!(cmd_of(&plugin_cli::entered("p log show")), "p log show");
    assert_eq!(
        cmd_of(&plugin_cli::starting()),
        "p log log INFO 'Waiting for 3 seconds before starting CLI input loop...'"
    );
    assert_eq!(
        cmd_of(&plugin_cli::read_failed("eof")),
        "p log log WARN 'Failed to read input. Err: eof'"
    );
    let cli = plugin_cli::PluginUnit::new();
    assert_eq!(cmds(&cli.handle_action(Action::Show)), vec!["p log log INFO 'show'"]);
}

#[test]
fn file_names_are_checked_like_paths() {
    for name in [
        "", "a", "a/b.txt", "./a", "a/./b", "a//b", "nas/upload/x.mp3", "..", "../a", "a/..", "a/../b",
        "/", "/a", "//a", "..a", "a..", "a/..b/c", ".", "./..", "...", "a/.../b", ".hidden",
    ] {
        let path = Path::new(name);
        let expected = path
            .components()
            .all(|c| matches!(c, Component::Normal(_) | Component::CurDir))
            && !path.is_absolute();
        assert_eq!(plugin_web::is_valid_filename(name), expected, "{name:?}");
    }
}

#[test]
fn web_requests_are_answered() {
    let (line, response) = plugin_web::hello("cng4");
    assert_eq!(cmd_of(&line), "p log log INFO 'API: GET /hello'");
    assert_eq!((response.status, response.body.as_str()), (200, "Hello cng4!"));
    assert_eq!(
        cmds(&plugin_web::cmd("p log show")),
        vec!["p log log INFO 'API: POST /cmd: `p log show`'", "p log show"]
    );
    let (line, refused) = plugin_web::upload("../etc/passwd");
    assert_eq!(cmd_of(&line), "p log log INFO 'API: POST /upload: `../etc/passwd`'");
    let refused = refused.unwrap();
    assert_eq!((refused.status, refused.body.as_str()), (400, "Invalid filename"));
    assert!(plugin_web::upload("nas/upload/a.mp3").1.is_none());
    let (line, response) = plugin_web::uploaded("a.mp3", &None);
    assert_eq!(cmd_of(&line), "p log log INFO 'API: POST /upload: `a.mp3` done'");
    assert_eq!(response.status, 200);
    let (line, response) = plugin_web::uploaded("a.mp3", &Some("disk full".to_string()));
    assert_eq!(cmd_of(&line), "p log log WARN 'Failed to write `a.mp3`: disk full'");
    assert_eq!(
        (response.status, response.body.as_str()),
        (500, "Failed to write `{filename}`: {e}")
    );
    let (_, response) = plugin_web::removed("a.mp3", &Some("gone".to_string()));
    assert_eq!(
        (response.status, response.body.as_str()),
        (500, "Failed to remove `a.mp3`: gone")
    );
    assert_eq!(
        cmd_of(&plugin_web::PluginUnit::new().init("0.0.0.0", 9090)),
        "p log log INFO '  Running web server on 0.0.0.0:9090...'"
    );
}

#[test]
fn ping_asks_for_a_host() {
    let ping = plugin_ping::PluginUnit::new();
    let out = ping.handle_action(Action::Ping, &words("p ping ping example.com"));
    assert_eq!(out.len(), 3);
    assert!(matches!(&out[1], plugin_ping::Output::Bus(e) if cmd_of(e) == "p log log INFO 'Pinging IP: example.com'"));
    assert!(matches!(&out[2], plugin_ping::Output::Ping { target } if target == "example.com"));
    let out = ping.handle_action(Action::Ping, &words("p ping ping"));
    assert!(
        matches!(&out[1], plugin_ping::Output::Bus(e) if cmd_of(e) == "p log log WARN 'Missing <ip_address> for `ping` command: `p ping ping`'")
    );
    assert_eq!(ping.handle_action(Action::Help, &words("p ping help")).len(), 2);
    assert_eq!(
        cmd_of(&plugin_ping::resolve_failed("nowhere", "no such host")),
        "p log log WARN 'Failed to resolve nowhere: no such host'"
    );
    assert_eq!(
        cmd_of(&plugin_ping::ping_failed("1.2.3.4", "timeout")),
        "p log log WARN 'Failed to ping 1.2.3.4: timeout'"
    );
    assert_eq!(cmd_of(&plugin_ping::ping_done("1.234ms")), "p log log INFO 'Ping took 1.234ms'");
}

#[test]
fn hardware_addresses() {
    assert_eq!(
        plugin_wol::parse_mac("00:1a:2B:3c:4D:ff"),
        Some([0x00, 0x1a, 0x2b, 0x3c, 0x4d, 0xff])
    );
    for bad in [
        "", "00:1a:2b:3c:4d", "00:1a:2b:3c:4d:ff:", "00-1a-2b-3c-4d-ff", "0g:1a:2b:3c:4d:ff",
        "001a:2b:3c:4d:ff:0", "00:1a:2b:3c:4d:f", "00:1a:2b:3c:4d:fff", " 0:1a:2b:3c:4d:ff",
    ] {
        assert_eq!(plugin_wol::parse_mac(bad), None, "{bad:?}");
    }
    assert_eq!(
        plugin_wol::format_mac(&[0x00, 0x1a, 0x2b, 0x3c, 0x4d, 0xff]),
        "00:1A:2B:3C:4D:FF"
    );
    for mac in [[0u8; 6], [255u8; 6], [1, 35, 69, 103, 137, 171]] {
        let text = format!(
            "{:02X}:{:02X}:{:02X}:{:02X}:{:02X}:{:02X}",
            mac[0], mac[1], mac[2], mac[3], mac[4], mac[5]
        );
        assert_eq!(plugin_wol::format_mac(&mac), text);
        assert_eq!(plugin_wol::parse_mac(&text), Some(mac));
    }
}

#[test]
fn machines_are_added_and_woken() {
    let mut wol = plugin_wol::PluginUnit::new();
    let shown = |wol: &mut plugin_wol::PluginUnit, line: &str, action: Action| -> Vec<String> {
        wol.handle_action(action, &words(line))
            .iter()
            .map(|o| match o {
                plugin_wol::Output::Bus(e) => cmd_of(e),
                plugin_wol::Output::Wake { name, mac } => format!("wake {name} {mac:?}"),
            })
            .collect()
    };
    assert_eq!(
        shown(&mut wol, "p wol show", Action::Show),
        vec!["p log log INFO 'show'", "p log log INFO '  No devices configured.'"]
    );
    assert_eq!(
        shown(&mut wol, "p wol add nas 00:11:22:33:44:55", Action::Add),
        vec![
            "p log log INFO 'add'",
            "p log log INFO '  Adding device `nas` with MAC `00:11:22:33:44:55`'",
            "p log log INFO 'Device `nas` added.'",
        ]
    );
    assert_eq!(
        shown(&mut wol, "p wol add nas 00:11:22:33:44:66", Action::Add)[2],
        "p log log WARN 'Device `nas` already exists.'"
    );
    assert_eq!(
        shown(&mut wol, "p wol add pc nonsense", Action::Add)[2],
        "p log log WARN 'Invalid MAC address `nonsense`: expected six bytes in hex, separated by colons'"
    );
    assert_eq!(wol.machines().len(), 1);
    assert_eq!(
        shown(&mut wol, "p wol show", Action::Show),
        vec!["p log log INFO 'show'", "p log log INFO '  nas: 00:11:22:33:44:55'"]
    );
    assert_eq!(
        shown(&mut wol, "p wol wake nas", Action::Wake),
        vec![
            "p log log INFO 'wake'",
            "p log log INFO '  Waking device `nas`'",
            "wake nas [0, 17, 34, 51, 68, 85]",
        ]
    );
    assert_eq!(
        shown(&mut wol, "p wol wake pc", Action::Wake)[2],
        "p log log WARN 'Device `pc` not found.'"
    );
    assert_eq!(
        shown(&mut wol, "p wol wake", Action::Wake)[1],
        "p log log WARN 'Missing <name> for `wake` command: `p wol wake`'"
    );
    assert_eq!(
        cmd_of(&wol.woken("nas", &None)),
        "p log log INFO 'Device `nas` woken up successfully.'"
    );
    assert_eq!(
        cmd_of(&wol.woken("nas", &Some("no route".to_string()))),
        "p log log WARN 'Failed to wake device `nas`: no route'"
    );
}

#[test]
fn info_panel_turns_pages_and_keeps_devices() {
    let mut infos = plugin_infos::PluginUnit::new();
    let act = |infos: &mut plugin_infos::PluginUnit, action: Action, line: &str| {
        infos.handle_action(action, &words(line), 1_700_000_000, &Some("45.2°C".to_string()))
    };
    for expected in [1, 2, 0, 1] {
        assert!(act(&mut infos, Action::Key, "p infos key right").is_empty());
        assert_eq!(infos.page(), expected);
    }
    for expected in [0, 2, 1] {
        act(&mut infos, Action::Key, "p infos key left");
        assert_eq!(infos.page(), expected);
    }
    act(&mut infos, Action::Key, "p infos key left");
    assert_eq!(infos.page(), 0);

    assert!(act(&mut infos, Action::Update, "p infos update devices version pi5 1.2.3").is_empty());
    assert!(infos.devices().is_empty());
    act(&mut infos, Action::Update, "p infos update devices onboard pi5 1");
    act(&mut infos, Action::Update, "p infos update devices version pi5 1.2.3");
    act(&mut infos, Action::Update, "p infos update devices temperature pi5 45.2");
    act(&mut infos, Action::Update, "p infos update devices app_uptime pi5 60");
    assert_eq!(infos.devices().len(), 1);
    let page = infos.update_devices_at(&vec!["2024-01-01 00:00:00".to_string()]);
    assert_eq!(
        page,
        format!(
            "{:<12} {:<7} {:<10} {:16} {:<7} {:13} {:<16}\n{:<12} {:<7} {:<10} {:16} {:<7} {:13} {:<16}",
            "Name", "Onboard", "Version", "Tailscale IP", "Temp", "App Uptime", "Last Update",
            "pi5", "On", "1.2.3", "N/A", "45.2°C", "0d 00:01:00", "2024-01-01 00:00:00"
        )
    );
    assert_eq!(infos.update_devices().lines().count(), 2);
    let out = act(&mut infos, Action::Update, "p infos update devices app_uptime pi5 soon");
    assert!(
        matches!(&out[0], plugin_infos::Output::Bus(e) if cmd_of(e) == "p log log WARN 'Invalid <app_uptime> (`soon`) for `update` command: `p infos update devices app_uptime pi5 soon`'")
    );
    let out = act(&mut infos, Action::Update, "p infos update devices version pi5");
    assert!(
        matches!(&out[0], plugin_infos::Output::Bus(e) if cmd_of(e) == "p log log WARN 'Missing <name> <version> for `update` command: `p infos update devices version pi5`'")
    );
    let out = act(&mut infos, Action::Update, "p infos update weather summary Taipei t 25.0 1");
    assert!(
        matches!(&out[0], plugin_infos::Output::Weather { action: Action::Update, cmd_parts } if cmd_parts.len() == 9)
    );
    let out = act(&mut infos, Action::Add, "p infos add weather Taipei 25.03 121.56");
    assert!(matches!(&out[0], plugin_infos::Output::Weather { action: Action::Add, .. }));
    let out = act(&mut infos, Action::Add, "p infos add devices x");
    assert!(
        matches!(&out[0], plugin_infos::Output::Bus(e) if cmd_of(e) == "p log log WARN 'Invalid <info_key> (`devices`) for `add` command: `p infos add devices x`'")
    );

    act(&mut infos, Action::Gui, "p infos gui normal 0 50 100 50");
    assert_eq!(
        infos.panel_info(),
        PanelInfo {
            panel_type: PanelType::Normal,
            x: 0,
            y: 50,
            w: 100,
            h: 50
        }
    );
    assert_eq!(cmd_of(&infos.output_update(&page)), "p plugins redraw infos");
    let drawn = infos.draw(AREA, false);
    assert_eq!(drawn.title, "infos -  - 1/3 - devices");
    assert_eq!(drawn.lines.len(), 2);
    assert_eq!(
        drawn.area,
        Rect {
            x: 0,
            y: 20,
            width: 100,
            height: 20
        }
    );
    act(&mut infos, Action::Key, "p infos key right");
    assert_eq!(infos.draw(AREA, false).title, "infos -  - 2/3 - weather current");
}

#[test]
fn clock_is_set_in_large_digits() {
    let clock = plugin_time::big_clock("12:34:56");
    let rows: Vec<&str> = clock.split('\n').collect();
    assert_eq!(rows.len(), 6);
    for row in &rows {
        assert_eq!(row.chars().count(), 6 * 9 + 2 * 3);
    }
    // The colons stand in their own three columns.
    assert!(rows.iter().any(|r| r[18..21].contains('_')));
    assert_eq!(plugin_time::big_clock(""), "");

    let picture = |ch: char| -> Option<String> {
        match ch {
            '1' => Some(" _\n/ |\n| |\n".to_string()),
            ':' => Some(".\n.\n".to_string()),
            _ => None,
        }
    };
    let chars: Vec<char> = "1:1x1".chars().collect();
    let pictures: Vec<Option<String>> = chars.iter().map(|c| picture(*c)).collect();
    assert_eq!(
        plugin_time::big_clock_from(&chars, &pictures),
        format!(
            "{:>9}{:<3}{:<9}{:<9}\n{:>9}{:<3}{:<9}{:<9}\n{:>9}{:<9}{:<9}",
            " _", ".", " _", " _", "/ |", ".", "/ |", "/ |", "| |", "| |", "| |"
        )
    );
}

#[test]
fn clock_opens_moves_and_closes() {
    let mut time = plugin_time::PluginUnit::new();
    let out = time.handle_action(Action::Open, &words("p time open"));
    assert_eq!(out.len(), 3);
    assert!(matches!(&out[1], plugin_time::Output::Bus(e) if cmd_of(e) == "p plugins popup time"));
    assert!(matches!(&out[2], plugin_time::Output::Tick));
    assert!(time.is_open());
    assert_eq!(
        cmd_of(&plugin_time::output_update("12:34:56")),
        "p time output_update '12:34:56'"
    );
    time.handle_action(Action::Gui, &words("p time gui popup 10 10 50 50"));
    let parts = words("p time output_update 12:34:56");
    for second in 1..30 {
        let out = time.handle_action_with(Action::OutputUpdate, &parts, 30, 7, 9);
        assert!(matches!(&out[0], plugin_time::Output::Bus(e) if cmd_of(e) == "p plugins redraw"));
        assert_eq!((time.panel_info().x, time.panel_info().y), (10, 10), "second {second}");
    }
    time.handle_action_with(Action::OutputUpdate, &parts, 30, 7, 9);
    assert_eq!((time.panel_info().x, time.panel_info().y), (7, 9));
    assert_eq!(time.output(), "12:34:56");
    for _ in 0..200 {
        time.handle_action(Action::OutputUpdate, &parts);
        assert!(time.panel_info().x <= 60 && time.panel_info().y <= 60);
        assert_eq!(time.panel_info().panel_type, PanelType::Popup);
    }
    let drawn = time.draw(AREA, true);
    assert_eq!((drawn.area.width, drawn.area.height), (65.min(100 - drawn.area.x), 8));
    assert_eq!(drawn.lines.len(), 6);
    assert_eq!(drawn.title, "time");
    time.handle_action(Action::Key, &words("p time key alt_w"));
    let before = time.panel_info();
    time.handle_action(Action::Key, &words("p time key alt_right"));
    assert_eq!(time.panel_info().x, before.x + 1);
    let out = time.handle_action(Action::Key, &words("p time key ctrl_x"));
    assert_eq!(out.len(), 2);
    assert!(!time.is_open());
}
