use cng4::arguments::{Arguments, Mode};
use cng4::globals::{
    get_server, get_server_ip, get_sys_name, set_server, set_server_ip, set_sys_name, Global,
};
use cng4::messages::{
    first_word, route, Action, DeviceKey, InfoKey, Key, Level, Route, WeatherKey,
};
use cng4::text;
use cng4::utils::api;
use cng4::handle_panic::report;
use cng4::utils::common::{
    get_cmd_action, get_tailscale_ip_str, inet_address, level_str, level_to_str,
    list_files_lines, pad_str, pick_tailscale_ip, shorten, Interface, MsgTemplate, NetAddress,
};
use cng4::utils::nas::{self, FileMeta};
use cng4::utils::panel::{scroll_offset, styled_lines, LineStyle, PanelInfo, PanelType};
use cng4::utils::time::{ts, ts_from, ts_str, ts_str_full, ts_str_local, uptime_str};

fn strings(list: &[&str]) -> Vec<String> {
    list.iter().map(|w| w.to_string()).collect()
}

#[test]
fn templates_fill_in_their_arguments() {
    assert_eq!(
        MsgTemplate::UnsupportedAction.format("publish", "", ""),
        "Unsupported action: `publish`"
    );
    assert_eq!(
        MsgTemplate::MissingParameters.format("<plugin>", "insert", "p plugins insert"),
        "Missing <plugin> for `insert` command: `p plugins insert`"
    );
    assert_eq!(
        MsgTemplate::InvalidParameters.format("<key>", "key", "p log key x"),
        "Invalid <key> for `key` command: `p log key x`"
    );
}

#[test]
fn level_letters() {
    assert_eq!(level_str("info"), "I");
    assert_eq!(level_str("INFO"), "I");
    assert_eq!(level_str("Warn"), "W");
    assert_eq!(level_str("eRRor"), "E");
    assert_eq!(level_str("debug"), "?");
    assert_eq!(level_str(""), "?");
    assert_eq!(level_str("infos"), "?");
    assert_eq!(level_to_str(&Level::Info), "I");
    assert_eq!(level_to_str(&Level::Warn), "W");
    assert_eq!(level_to_str(&Level::Error), "E");
    assert_eq!(level_to_str(&Level::Debug), "?");
    assert_eq!(level_to_str(&Level::Trace), "?");
}

#[test]
fn level_letters_agree_with_lowercasing() {
    for word in ["info", "Info", "WARN", "error", "ERROR", "İnfo", "warn ", "K", "ınfo"] {
        let expected = match word.to_lowercase().as_str() {
            "info" => "I",
            "warn" => "W",
            "error" => "E",
            _ => "?",
        };
        assert_eq!(level_str(word), expected, "{word}");
    }
}

#[test]
fn shorten_keeps_short_strings_and_cuts_long_ones() {
    assert_eq!(shorten("abcdef", 3, 3), "abcdef");
    assert_eq!(shorten("abcdefg", 3, 3), "abc...efg");
    assert_eq!(shorten("abcdefghij", 2, 0), "ab...");
    assert_eq!(shorten("abcdefghij", 0, 2), "...ij");
    assert_eq!(shorten("", 0, 0), "");
    assert_eq!(shorten("日本語のテキスト", 2, 1), "日本...ト");
    assert_eq!(shorten("abc", usize::MAX, usize::MAX), "abc");
    assert_eq!(
        shorten("https://example.com/watch?v=12345", 5, 6),
        "https...=12345"
    );
}

#[test]
fn pad_str_counts_columns() {
    assert_eq!(pad_str("ab", 5), "ab   ");
    assert_eq!(pad_str("abcdef", 3), "abcdef");
    assert_eq!(pad_str("台北", 6), "台北  ");
    assert_eq!(pad_str("", 2), "  ");
    assert_eq!(text::pad_left("ab", 4), "  ab");
    assert_eq!(text::pad_right("台北", 4), "台北  ");
}

#[test]
fn uptime_is_days_and_clock() {
    assert_eq!(uptime_str(0), "0d 00:00:00");
    assert_eq!(uptime_str(59), "0d 00:00:59");
    assert_eq!(uptime_str(3661), "0d 01:01:01");
    assert_eq!(uptime_str(86399), "0d 23:59:59");
    assert_eq!(uptime_str(86400), "1d 00:00:00");
    assert_eq!(uptime_str(90061), "1d 01:01:01");
    assert_eq!(uptime_str(u64::MAX), "213503982334601d 07:00:15");
}

#[test]
fn clock_and_time_texts() {
    assert!(ts() > 1_600_000_000);
    assert_eq!(ts_from(Some(1_714_571_100)), 1_714_571_100);
    assert_eq!(ts_from(Some(0)), 0);
    assert_eq!(ts_from(Some(u64::MAX)), u64::MAX);
    assert_eq!(ts_from(None), 0);
    let time = ts_str(1_700_000_000);
    assert_eq!(time.len(), 8);
    assert_eq!(&time[2..3], ":");
    assert_eq!(ts_str_local(1_700_000_000).len(), 19);
    assert_eq!(ts_str_full(1_700_000_000).len(), 26);
    assert!(ts_str_local(0).starts_with("19"));
    assert!(ts_str_local(253_402_300_799).len() >= 19);
}

#[test]
fn tailscale_ip_or_not_known() {
    assert_eq!(get_tailscale_ip_str(&Some("100.1.2.3".to_string())), "100.1.2.3");
    assert_eq!(get_tailscale_ip_str(&None), "N/A");
}

#[test]
fn vocabulary_round_trips() {
    for (word, action) in [
        ("log", Action::Log),
        ("insert", Action::Insert),
        ("show", Action::Show),
        ("update", Action::Update),
        ("download", Action::Download),
        ("help", Action::Help),
        ("gui", Action::Gui),
        ("output_update", Action::OutputUpdate),
        ("output_push", Action::OutputPush),
        ("key", Action::Key),
        ("restart", Action::Restart),
        ("disconnected", Action::Disconnected),
        ("publish", Action::Publish),
        ("add", Action::Add),
        ("cmd", Action::Cmd),
        ("upload", Action::Upload),
        ("remove", Action::Remove),
        ("dest", Action::Dest),
        ("open", Action::Open),
        ("popup", Action::Popup),
        ("insert_panel", Action::InsertPanel),
        ("redraw", Action::Redraw),
        ("sync", Action::Sync),
    ] {
        assert_eq!(Action::parse(word), Some(action));
        assert_eq!(action.as_ref(), word);
        assert_eq!(action.to_string(), word);
    }
    assert_eq!(Action::parse("Insert"), None);
    assert_eq!(Action::parse(""), None);
    assert_eq!(Action::parse("insert "), None);
    for (word, key) in [
        ("tab", Key::Tab),
        ("up", Key::Up),
        ("down", Key::Down),
        ("left", Key::Left),
        ("right", Key::Right),
        ("alt_c", Key::AltC),
        ("alt_up", Key::AltUp),
        ("alt_down", Key::AltDown),
        ("alt_left", Key::AltLeft),
        ("alt_right", Key::AltRight),
        ("alt_w", Key::AltW),
        ("alt_s", Key::AltS),
        ("alt_a", Key::AltA),
        ("alt_d", Key::AltD),
        ("ctrl_x", Key::ControlX),
        ("ctrl_s", Key::ControlS),
        ("home", Key::Home),
        ("end", Key::End),
    ] {
        assert_eq!(Key::parse(word), Some(key));
        assert_eq!(key.to_string(), word);
    }
    assert_eq!(Key::parse("ctrl_q"), None);
    assert_eq!(DeviceKey::parse("tailscale_ip"), Some(DeviceKey::TailscaleIp));
    assert_eq!(DeviceKey::AppUptime.as_ref(), "app_uptime");
    assert_eq!(InfoKey::parse("devices"), Some(InfoKey::Devices));
    assert_eq!(InfoKey::Weather.as_ref(), "weather");
    assert_eq!(WeatherKey::parse("daily"), Some(WeatherKey::Daily));
    assert_eq!(WeatherKey::Summary.as_ref(), "summary");
    assert_eq!(PanelType::parse("popup"), Some(PanelType::Popup));
    assert_eq!(PanelType::parse("Normal"), None);
    assert_eq!(PanelType::Normal.as_ref(), "normal");
    assert_eq!(Level::Warn.as_ref(), "WARN");
    assert_eq!(Mode::parse("cli"), Some(Mode::Cli));
    assert_eq!(Mode::Gui.to_string(), "gui");
    assert_eq!(Mode::parse("tui"), None);
}

#[test]
fn arguments_in_one_line() {
    let args = Arguments {
        mode: Mode::Cli,
        script: "custom.toml".to_string(),
    };
    assert_eq!(args.to_string(), "[arguments] mode: Cli, script: custom.toml");
}

#[test]
fn shared_names_are_set_and_read() {
    let mut g = Global::new();
    assert_eq!(get_sys_name(&g), "default");
    assert_eq!(get_server(&g), "default");
    assert_eq!(get_server_ip(&g), None);
    set_sys_name(&mut g, "pi5");
    set_server(&mut g, "nas");
    set_server_ip(&mut g, "100.64.0.1");
    assert_eq!(get_sys_name(&g), "pi5");
    assert_eq!(get_server(&g), "nas");
    assert_eq!(get_server_ip(&g), Some("100.64.0.1".to_string()));
}

#[test]
fn first_word_stops_at_space_and_comment() {
    assert_eq!(first_word("p log show"), "p");
    assert_eq!(first_word("   quit now"), "quit");
    assert_eq!(first_word("\t\u{a0}exit"), "exit");
    assert_eq!(first_word("q#uit"), "q");
    assert_eq!(first_word("# p log show"), "");
    assert_eq!(first_word("   "), "");
    assert_eq!(first_word(""), "");
    assert!(matches!(route("p x y"), Route::Plugins));
    assert!(matches!(route("pp x y"), Route::Unknown(w) if w == "pp"));
    assert!(matches!(route(" "), Route::Empty));
    assert!(matches!(route("quit"), Route::Quit));
}

#[test]
fn first_word_agrees_with_split_whitespace() {
    for line in [
        "p a b",
        "  \u{2003}x\u{3000}y",
        "a#b c",
        "a b # c",
        "#",
        "\u{85}\u{1680}w",
        "w\u{200b}z q",
        "",
    ] {
        let before = line.split_once('#').map(|(b, _)| b.trim_end()).unwrap_or(line);
        let expected = before.split_whitespace().next().unwrap_or("");
        assert_eq!(first_word(line), expected, "{line:?}");
    }
}

#[test]
fn numbers_are_read_like_std_reads_them() {
    for word in [
        "0", "7", "007", "+7", "100", "101", "65535", "65536", "", "+", "-1", "1 ", " 1", "1.0",
        "١", "99999999999999999999999", "18446744073709551615", "18446744073709551616", "++1",
    ] {
        assert_eq!(
            text::parse_unsigned(word, u64::MAX),
            word.parse::<u64>().ok(),
            "{word:?}"
        );
        assert_eq!(
            text::parse_unsigned(word, 65535),
            word.parse::<u16>().ok().map(|n| n as u64),
            "{word:?}"
        );
        assert_eq!(
            text::parse_unsigned(word, 255),
            word.parse::<u8>().ok().map(|n| n as u64),
            "{word:?}"
        );
    }
    assert_eq!(text::decimal(0), "0");
    assert_eq!(text::decimal(1234567890), "1234567890");
    assert_eq!(text::decimal(u64::MAX), u64::MAX.to_string());
}

#[test]
fn text_helpers() {
    assert_eq!(text::join(&strings(&["a", "b c", ""]), " "), "a b c ");
    assert_eq!(text::join(&strings(&[]), ", "), "");
    assert_eq!(text::join(&strings(&["x"]), ", "), "x");
    assert_eq!(text::replace_char("a'b'c", '\'', '_'), "a_b_c");
    assert_eq!(text::split("a\nb\n", '\n'), strings(&["a", "b", ""]));
    assert_eq!(text::split("", '\n'), strings(&[""]));
    for s in ["", "a", "a\nb", "a\r\nb\r\n", "\n", "\n\n", "a\r", "a\n\rb", "\r\n", "x\n\ny"] {
        let expected: Vec<String> = s.lines().map(String::from).collect();
        assert_eq!(text::lines(s), expected, "{s:?}");
    }
    assert!(text::contains("abc[W]def", "[W]"));
    assert!(!text::contains("abc[W", "[W]"));
    assert!(text::contains("abc", ""));
    assert!(text::contains("", ""));
    assert!(!text::contains("", "a"));
    for (a, b) in [("", ""), ("", "a"), ("a", ""), ("abc", "abd"), ("abc", "ab"), ("ab", "abc"),
        ("2024-01-02T00:00:00+00:00", "2024-01-10T00:00:00+00:00"), ("é", "z"), ("日", "本")]
    {
        assert_eq!(text::less(a, b), a < b, "{a:?} {b:?}");
    }
}

#[test]
fn command_lines_are_split_like_a_shell() {
    let (parts, action) = get_cmd_action("p panels create \"my title\" log popup 1 2 3 4").unwrap();
    assert_eq!(action, Action::Create);
    assert_eq!(
        parts,
        strings(&["p", "panels", "create", "my title", "log", "popup", "1", "2", "3", "4"])
    );
    assert_eq!(
        get_cmd_action("p panels 'oops").unwrap_err(),
        "Failed to parse cmd `p panels 'oops`."
    );
    assert_eq!(
        get_cmd_action("p panels").unwrap_err(),
        "Missing <action> for `p <plugin_name> <action> ...` command: `p panels`"
    );
    assert_eq!(
        get_cmd_action("p panels fly away").unwrap_err(),
        "Invalid <action> (`fly`) for `p <plugin_name> <action> ...` command: `p panels fly away`"
    );
}

#[test]
fn files_are_listed() {
    assert_eq!(
        list_files_lines(&strings(&["a.txt", "sub/b.txt"])),
        strings(&["  Files:", "    - a.txt", "    - sub/b.txt"])
    );
    assert_eq!(
        list_files_lines(&strings(&[])),
        strings(&["  Files:", "    (no files)"])
    );
}

#[test]
fn lines_are_styled_and_scrolled() {
    let lines = styled_lines(
        &strings(&["plain", "a [W] b\nc [E] d", "[E] and [W]", ""]),
        "[W]",
        "[E]",
    );
    let seen: Vec<(String, LineStyle)> = lines.iter().map(|l| (l.text.clone(), l.style)).collect();
    assert_eq!(
        seen,
        vec![
            ("plain".to_string(), LineStyle::Plain),
            ("a [W] b".to_string(), LineStyle::Warn),
            ("c [E] d".to_string(), LineStyle::Error),
            ("[E] and [W]".to_string(), LineStyle::Warn),
            ("".to_string(), LineStyle::Plain),
        ]
    );
    assert_eq!(scroll_offset(0, 10), 0);
    assert_eq!(scroll_offset(7, 10), 0);
    assert_eq!(scroll_offset(8, 10), 1);
    assert_eq!(scroll_offset(1000, 10), 993);
    assert_eq!(scroll_offset(5, 2), 5);
    assert_eq!(scroll_offset(usize::MAX, 3), 65535);
    assert_eq!(
        PanelInfo::new(PanelType::Popup).debug_string(),
        format!(
            "{:?}",
            PanelInfo {
                panel_type: PanelType::Popup,
                x: 0,
                y: 0,
                w: 0,
                h: 0
            }
        )
    );
}

#[test]
fn base64_and_hash() {
    assert_eq!(nas::encode(b"hello world~"), "aGVsbG8gd29ybGR+");
    assert_eq!(nas::encode(b""), "");
    assert_eq!(nas::decode("aGVsbG8gd29ybGR+").unwrap(), b"hello world~".to_vec());
    assert!(nas::decode("not base64!").is_err());
    assert_eq!(
        nas::hash_str("abc"),
        "ba7816bf8f01cfea414140de5dae2223b00361a396177a9cb410ff61f20015ad"
    );
    assert_eq!(
        nas::hash_str(""),
        "e3b0c44298fc1c149afbf4c8996fb92427ae41e4649b934ca495991b7852b855"
    );
    assert!(nas::needs_write(&None, "YQ=="));
    assert!(nas::needs_write(&Some("Yg==".to_string()), "YQ=="));
    assert!(!nas::needs_write(&Some("YQ==".to_string()), "YQ=="));
}

#[test]
fn folder_meta_is_sorted_and_hashed() {
    let files = vec![
        FileMeta::new("b.txt", "2024-01-02T00:00:00+00:00", b"bbb"),
        FileMeta::new("a.txt", "2024-01-01T00:00:00+00:00", b"aaa"),
        FileMeta::new("ab.txt", "2024-01-03T00:00:00+00:00", b""),
    ];
    assert_eq!(files[1].hash, nas::hash_str("YWFh"));
    let meta = nas::folder_meta("nas/editor", &files);
    assert_eq!(meta.foldername, "nas/editor");
    let names: Vec<&str> = meta.files.iter().map(|f| f.filename.as_str()).collect();
    assert_eq!(names, vec!["a.txt", "ab.txt", "b.txt"]);
    let combined = format!(
        "a.txt:{}:2024-01-01T00:00:00+00:00|ab.txt:{}:2024-01-03T00:00:00+00:00|b.txt:{}:2024-01-02T00:00:00+00:00",
        nas::hash_str("YWFh"),
        nas::hash_str(""),
        nas::hash_str("YmJi")
    );
    assert_eq!(meta.hash, nas::hash_str(&combined));
    assert_eq!(
        meta.files[0].to_string(),
        format!(
            "file: a.txt, hash: {}, mtime: 2024-01-01T00:00:00+00:00",
            nas::hash_str("YWFh")
        )
    );
    assert!(meta.to_string().starts_with("\nfolder: nas/editor\nhash: "));
    assert_eq!(meta.to_string().lines().count(), 6);
    let empty = nas::folder_meta("x", &vec![]);
    assert_eq!(empty.hash, nas::hash_str(""));
    assert!(empty.files.is_empty());
}

#[test]
fn folder_meta_sorts_like_std() {
    let names = ["zeta", "Alpha", "alpha", "", "é", "a/b", "a.b", "ab", "a", "日本"];
    let files: Vec<FileMeta> = names.iter().map(|n| FileMeta::new(n, "t", b"x")).collect();
    let meta = nas::folder_meta("f", &files);
    let mut expected: Vec<&str> = names.to_vec();
    expected.sort();
    let got: Vec<&str> = meta.files.iter().map(|f| f.filename.as_str()).collect();
    assert_eq!(got, expected);
}

#[test]
fn requests_show_themselves() {
    let cmd = api::CmdRequest {
        cmd: "p log show".to_string(),
    };
    assert_eq!(cmd.to_string(), "p log show");
    let upload = api::UploadRequest {
        filename: "nas/upload/a-very-long-file-name.mp3".to_string(),
        content: String::new(),
        mtime: String::new(),
    };
    assert_eq!(upload.to_string(), "nas/upload/a-very-lo...");
    let log = api::LogData {
        name: "pi5".to_string(),
        ts: 0,
        plugin: "mqtt".to_string(),
        level: "WARN".to_string(),
        msg: "lost".to_string(),
    };
    assert_eq!(
        log.to_string_at("12:00:00"),
        "pi5          12:00:00       mqtt: [W] lost"
    );
    assert_eq!(log.to_string().len(), log.to_string_at("12:00:00").len());
    assert_eq!(api::url("100.1.2.3", "cmd"), "http://100.1.2.3:9090/cmd");
}

#[test]
fn outcomes_are_reported() {
    let cmd = api::CmdRequest {
        cmd: "p log show".to_string(),
    };
    let texts = |o: &api::Outcome| match api::post_cmd_end("devices", "pi5", "100.1.2.3", &cmd, o)
    {
        cng4::messages::Effect::Send { cmd, .. } => cmd,
        _ => unreachable!(),
    };
    assert_eq!(
        texts(&api::Outcome::Success {
            body: "ok".to_string()
        }),
        "p log log INFO '<- `pi5`: `p log show`: `ok`'"
    );
    assert_eq!(
        texts(&api::Outcome::Refused {
            status: "404 Not Found".to_string()
        }),
        "p log log WARN 'Failed to post cmd to 100.1.2.3 `p log show`: HTTP 404 Not Found'"
    );
    assert_eq!(
        texts(&api::Outcome::Failed {
            error: "timed out".to_string()
        }),
        "p log log WARN 'Error posting cmd to 100.1.2.3 `p log show`: timed out'"
    );
    let meta = api::GetFolderMetaRequest {
        foldername: "nas/editor".to_string(),
    };
    assert_eq!(
        api::post_get_folder_meta_end(
            "editor",
            "1.2.3.4",
            &meta,
            &api::Outcome::Refused {
                status: "500".to_string()
            }
        )
        .unwrap_err(),
        "<- POST 1.2.3.4 /get/folder_meta: `nas/editor`: Failed, HTTP 500"
    );
}

#[test]
fn addresses_are_read_from_ifconfig() {
    let block = "tun0: flags=4305<UP,POINTOPOINT,RUNNING,NOARP,MULTICAST>  mtu 1280\n        inet 100.101.102.103  netmask 255.255.255.255  destination 100.101.102.103\n        inet6 fe80::1  prefixlen 64";
    assert_eq!(inet_address(block), Some("100.101.102.103".to_string()));
    assert_eq!(inet_address("inet 1.2.3.4.5"), Some("1.2.3.4".to_string()));
    assert_eq!(inet_address("inet 1..2.3.4 inet 10.0.0.1"), Some("10.0.0.1".to_string()));
    assert_eq!(inet_address("xinet 192.168.1.20/24"), Some("192.168.1.20".to_string()));
    assert_eq!(inet_address("inet 1.2.3."), None);
    assert_eq!(inet_address("inet  1.2.3.4"), None);
    assert_eq!(inet_address("inet6 1.2.3.4"), None);
    assert_eq!(inet_address("inet 1.2.3"), None);
    assert_eq!(inet_address("inet"), None);
    assert_eq!(inet_address(""), None);
    assert_eq!(inet_address("inet inet 7.7.7.7"), Some("7.7.7.7".to_string()));
}

#[test]
fn failures_and_starts_are_reported() {
    assert_eq!(
        report(Some("boom"), Some("src/main.rs"), 42),
        "💥 Panic occurred: 'boom' at src/main.rs:42"
    );
    assert_eq!(
        report(None, None, 0),
        "💥 Panic occurred: 'Unknown panic message' unknown location"
    );
    let m = cng4::messages::starting("main", "cng4", "0.1.0");
    assert_eq!(m.plugin, "main");
    assert_eq!(m.data.to_string(), "Cmd: [CMD] p log log INFO 'Starting cng4 v0.1.0...'");
}

fn interface(name: &str, addresses: &[(&str, Option<u8>)]) -> Interface {
    Interface {
        name: name.to_string(),
        addresses: addresses
            .iter()
            .map(|(text, first_octet)| NetAddress {
                text: text.to_string(),
                first_octet: *first_octet,
            })
            .collect(),
    }
}

#[test]
fn the_address_in_the_network_is_picked() {
    let lan = interface("eth0", &[("192.168.1.2", Some(192))]);
    let tail = interface("tailscale0", &[("fe80::1", None), ("100.64.0.7", Some(100))]);
    let empty_tail = interface("tailscale1", &[("fe80::2", None)]);
    let tunnel = interface(
        "utun3",
        &[("10.0.0.1", Some(10)), ("fd7a::1", None), ("100.99.0.1", Some(100))],
    );
    let other_tunnel = interface("utun1", &[("10.0.0.9", Some(10))]);
    assert_eq!(pick_tailscale_ip(&vec![]), None);
    assert_eq!(pick_tailscale_ip(&vec![interface("eth0", &[("192.168.1.2", Some(192))])]), None);
    assert_eq!(
        pick_tailscale_ip(&vec![lan, empty_tail, other_tunnel, tunnel, tail]),
        Some("100.99.0.1".to_string())
    );
    let tail = interface("tailscale0", &[("10.1.2.3", Some(10)), ("100.64.0.7", Some(100))]);
    assert_eq!(
        pick_tailscale_ip(&vec![interface("Tailscale", &[("1.1.1.1", Some(1))]), tail]),
        Some("10.1.2.3".to_string())
    );
}
