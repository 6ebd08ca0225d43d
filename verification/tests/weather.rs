use cng4::arguments::Mode;
use cng4::messages::{Action, Effect};
use cng4::plugins::plugin_infos;
use cng4::plugins::plugin_weather::{self, Output};
use cng4::utils::time::datetime_str_to_ts;
use cng4::utils::weather::{
    weather_code_emoji, weather_code_str, Cities, Number, Reason, Weather, WeatherDaily,
};
use unicode_width::UnicodeWidthStr;

fn words(line: &str) -> Vec<String> {
    line.split(' ').map(|w| w.to_string()).collect()
}

fn number(value: f32) -> Number {
    Number {
        plain: format!("{value}"),
        tenths: format!("{value:.1}"),
        whole: format!("{value:.0}"),
    }
}

fn numbers(cmd_parts: &[String]) -> Vec<Option<Number>> {
    cmd_parts
        .iter()
        .map(|w| w.parse::<f32>().ok().map(number))
        .collect()
}

fn columns(s: &str, total_width: usize) -> String {
    let width = UnicodeWidthStr::width(s);
    if width >= total_width {
        s.to_string()
    } else {
        format!("{}{}", s, " ".repeat(total_width - width))
    }
}

fn cmd_of(effect: &Effect) -> String {
    match effect {
        Effect::Send { cmd, .. } => cmd.clone(),
        other => panic!("not a command: {:?}", other),
    }
}

fn cmds(effects: &[Effect]) -> Vec<String> {
    effects.iter().map(cmd_of).collect()
}

fn bus(outputs: &[Output]) -> Vec<String> {
    outputs
        .iter()
        .map(|o| match o {
            Output::Bus(effect) => cmd_of(effect),
            other => panic!("not for the bus: {:?}", other),
        })
        .collect()
}

fn run(unit: &mut plugin_weather::Plugin, action: Action, line: &str) -> Vec<Output> {
    let parts = words(line);
    unit.handle_action(action, &parts, &numbers(&parts))
}

fn taipei_and_tokyo() -> Cities {
    let mut cities = Cities::new();
    for line in [
        "p weather add Taipei 25.03 121.56",
        "p weather add Tokyo 35.68 139.69",
    ] {
        let parts = words(line);
        assert!(cities.add(&parts, 3, &numbers(&parts)).is_ok());
    }
    cities
}

#[test]
fn weather_component_keeps_its_panel() {
    let mut weather = plugin_weather::Plugin::new(Mode::Gui);
    assert_eq!(cmd_of(&weather.init()), "p weather update");
    assert!(weather
        .handle_cmd_gui(&words("p weather gui infos"))
        .is_empty());
    assert_eq!(weather.gui_panel.as_deref(), Some("infos"));
    let out = weather.handle_cmd_gui(&words("p weather gui"));
    assert_eq!(
        bus(&out),
        vec!["p log log WARN 'Missing <gui_panel> for `gui` command: `p weather gui`'"]
    );
    assert_eq!(weather.gui_panel.as_deref(), Some("infos"));
    assert_eq!(weather.handle_cmd_help().len(), 5);
}

#[test]
fn a_city_is_added_once() {
    let mut cities = Cities::new();
    let parts = words("p weather add Taipei 25.030 121.56");
    let told = cities.add(&parts, 3, &numbers(&parts));
    assert_eq!(told.unwrap(), "Added city: `Taipei` (25.03, 121.56)");
    assert_eq!(cities.len(), 1);
    assert_eq!(cities.cities[0].name, "Taipei");
    assert_eq!(cities.cities[0].latitude.plain, "25.03");
    assert_eq!(cities.cities[0].longitude.plain, "121.56");
    assert!(cities.cities[0].weather.is_none());

    let again = cities.add(&parts, 3, &numbers(&parts)).unwrap_err();
    assert_eq!(again.reason, Reason::Exists);
    assert_eq!(again.warning, "City `Taipei` already exists.");
    assert_eq!(cities.len(), 1);

    let parts = words("p weather add Tokyo 35.68");
    let short = cities.add(&parts, 3, &numbers(&parts)).unwrap_err();
    assert_eq!(short.reason, Reason::Missing);
    assert_eq!(
        short.warning,
        "Missing <name> <latitude> <longitude> for `add` command: `p weather add Tokyo 35.68`"
    );

    let parts = words("p weather add Tokyo north east");
    let bad = cities.add(&parts, 3, &numbers(&parts)).unwrap_err();
    assert_eq!(bad.reason, Reason::Invalid);
    assert_eq!(
        bad.warning,
        "Invalid <name> <latitude> <longitude> for `add` command: `p weather add Tokyo north east`"
    );
    assert_eq!(cities.len(), 1);
    assert_eq!(cities.find("Taipei"), Some(0));
    assert_eq!(cities.find("Tokyo"), None);
}

#[test]
fn the_weather_as_it_is_now_is_taken_in() {
    let mut cities = taipei_and_tokyo();
    let parts = words("p weather update summary Tokyo 2024-05-01T13:45 18.26 61");
    assert!(cities.update(&parts, 3, &numbers(&parts)).is_none());
    let weather = cities.cities[1].weather.as_ref().unwrap();
    assert_eq!(weather.time, "2024-05-01T13:45");
    assert_eq!(weather.temperature.plain, "18.26");
    assert_eq!(weather.temperature.tenths, "18.3");
    assert_eq!(weather.weathercode, 61);
    assert!(weather.daily.is_empty());
    assert!(cities.cities[0].weather.is_none());

    let parts = words("p weather update summary Paris 2024-05-01T13:45 18.26 61");
    let refused = cities.update(&parts, 3, &numbers(&parts)).unwrap();
    assert_eq!(refused.reason, Reason::NotFound);
    assert_eq!(refused.warning, "City `Paris` not found.");

    let parts = words("p weather update summary Tokyo 2024-05-01T13:45 18.26 256");
    let refused = cities.update(&parts, 3, &numbers(&parts)).unwrap();
    assert_eq!(refused.reason, Reason::Invalid);
    assert_eq!(
        refused.warning,
        "Invalid <temperature> <weathercode> for `update` command: `p weather update summary Tokyo 2024-05-01T13:45 18.26 256`"
    );

    let parts = words("p weather update summary Tokyo");
    let refused = cities.update(&parts, 3, &numbers(&parts)).unwrap();
    assert_eq!(refused.reason, Reason::Missing);

    let parts = words("p weather update hourly Tokyo");
    let refused = cities.update(&parts, 3, &numbers(&parts)).unwrap();
    assert_eq!(refused.reason, Reason::Invalid);
    assert_eq!(
        refused.warning,
        "Invalid <weather_key> (`hourly`) for `update` command: `p weather update hourly Tokyo`"
    );

    let parts = words("p weather update");
    let refused = cities.update(&parts, 3, &numbers(&parts)).unwrap();
    assert_eq!(refused.reason, Reason::Missing);
    assert_eq!(
        refused.warning,
        "Missing <weather_key> for `update` command: `p weather update`"
    );
    assert_eq!(cities.cities[1].weather.as_ref().unwrap().weathercode, 61);
}

#[test]
fn a_day_is_set_after_blank_days() {
    let mut cities = taipei_and_tokyo();
    let daily = words("p weather update daily Taipei 2 2024-05-03 28.4 21.5 40 3");
    assert!(cities.update(&daily, 3, &numbers(&daily)).is_none());
    assert!(cities.cities[0].weather.is_none());

    let parts = words("p weather update summary Taipei 2024-05-01T13:45 26 2");
    assert!(cities.update(&parts, 3, &numbers(&parts)).is_none());
    assert!(cities.update(&daily, 3, &numbers(&daily)).is_none());
    let days = &cities.cities[0].weather.as_ref().unwrap().daily;
    assert_eq!(days.len(), 3);
    for blank in &days[..2] {
        assert_eq!(blank.time, "");
        assert_eq!(blank.temperature_2m_max.plain, "0");
        assert_eq!(blank.temperature_2m_max.tenths, "0.0");
        assert_eq!(blank.temperature_2m_min.whole, "0");
        assert_eq!(blank.precipitation_probability_max, 0);
        assert_eq!(blank.weather_code, 0);
        assert_eq!(blank.temperature_2m_max.plain, format!("{}", 0.0f32));
        assert_eq!(blank.temperature_2m_max.tenths, format!("{:.1}", 0.0f32));
        assert_eq!(blank.temperature_2m_max.whole, format!("{:.0}", 0.0f32));
    }
    assert_eq!(days[2].time, "2024-05-03");
    assert_eq!(days[2].temperature_2m_max.whole, "28");
    assert_eq!(days[2].temperature_2m_min.whole, "22");
    assert_eq!(days[2].precipitation_probability_max, 40);
    assert_eq!(days[2].weather_code, 3);

    let first = words("p weather update daily Taipei 0 2024-05-01 27 20 10 1");
    assert!(cities.update(&first, 3, &numbers(&first)).is_none());
    let days = &cities.cities[0].weather.as_ref().unwrap().daily;
    assert_eq!(days.len(), 3);
    assert_eq!(days[0].time, "2024-05-01");
    assert_eq!(days[2].time, "2024-05-03");

    let summary = words("p weather update summary Taipei 2024-05-01T14:00 27 1");
    assert!(cities.update(&summary, 3, &numbers(&summary)).is_none());
    let weather = cities.cities[0].weather.as_ref().unwrap();
    assert_eq!(weather.time, "2024-05-01T14:00");
    assert_eq!(weather.daily.len(), 3);

    let bad = words("p weather update daily Taipei two 2024-05-03 28.4 21.5 40 3");
    let refused = cities.update(&bad, 3, &numbers(&bad)).unwrap();
    assert_eq!(refused.reason, Reason::Invalid);
    let huge = words("p weather update daily Taipei 18446744073709551615 2024-05-03 28.4 21.5 40 3");
    let refused = cities.update(&huge, 3, &numbers(&huge)).unwrap();
    assert_eq!(refused.reason, Reason::Invalid);
    let short = words("p weather update daily Taipei 2 2024-05-03 28.4 21.5 40");
    let refused = cities.update(&short, 3, &numbers(&short)).unwrap();
    assert_eq!(refused.reason, Reason::Missing);
    assert_eq!(
        refused.warning,
        "Missing <city_name> <idx> <time> <temperature_2m_max> <temperature_2m_min> <precipitation_probability_max> <weather_code> for `update` command: `p weather update daily Taipei 2 2024-05-03 28.4 21.5 40`"
    );
}

#[test]
fn the_page_of_the_weather_as_it_is_now() {
    let mut cities = taipei_and_tokyo();
    let head = format!(
        "{:<12} {:<11} {:7} {:20}",
        "City", "Update", "Temp", "Weather"
    );
    let na = format!("{:<11} {:7} {:20}", "N/A", "N/A", "N/A");
    assert_eq!(
        cities.page_current_from(&[].to_vec()),
        format!("{head}\nTaipei       {na}\nTokyo        {na}")
    );
    assert_eq!(cities.page_current(), cities.page_current_from(&[].to_vec()));

    let parts = words("p weather update summary Tokyo 2024-05-01T13:45 18.26 61");
    assert!(cities.update(&parts, 3, &numbers(&parts)).is_none());
    let stamps = vec!["unused".to_string(), "13:45:00".to_string()];
    let tokyo = format!("{:<11} {:7} {:20}", "13:45:00", "18.3°C", "小雨");
    assert_eq!(
        cities.page_current_from(&stamps),
        format!("{head}\nTaipei       {na}\nTokyo        {tokyo}")
    );
    let page = cities.page_current();
    let lines: Vec<&str> = page.lines().collect();
    assert_eq!(lines.len(), 3);
    assert_eq!(lines[0], head);
    assert!(lines[2].starts_with("Tokyo        "));
    assert!(lines[2].ends_with(&format!(" {:7} {:20}", "18.3°C", "小雨")));
    let stamp = &lines[2][13..21];
    assert_eq!(stamp.len(), 8);
    assert_eq!(&stamp[2..3], ":");
    assert_eq!(&stamp[5..], ":00");

    let parts = words("p weather update summary Taipei never 30 0");
    assert!(cities.update(&parts, 3, &numbers(&parts)).is_none());
    let page = cities.page_current();
    let lines: Vec<&str> = page.lines().collect();
    assert_eq!(
        lines[1],
        format!("Taipei       {:<11} {:7} {:20}", "N/A", "30.0°C", "晴天")
    );
}

#[test]
fn dates_and_times_are_read_as_chrono_reads_them() {
    assert_eq!(datetime_str_to_ts("2024-05-01T13:45"), Some(1_714_571_100));
    assert_eq!(datetime_str_to_ts("1970-01-01T00:00"), Some(0));
    assert_eq!(datetime_str_to_ts("1969-12-31T23:59"), Some(-60));
    assert_eq!(datetime_str_to_ts("2024-05-01 13:45"), None);
    assert_eq!(datetime_str_to_ts("2024-13-01T13:45"), None);
    assert_eq!(datetime_str_to_ts(""), None);
}

#[test]
fn the_page_of_the_coming_days() {
    let mut cities = Cities::new();
    assert_eq!(cities.page_daily(), "No data");
    cities = taipei_and_tokyo();
    assert_eq!(cities.page_daily(), "No data");
    for line in [
        "p weather update summary Taipei 2024-05-01T13:45 26 2",
        "p weather update daily Taipei 0 2024-05-01 27 20 10 1",
        "p weather update daily Taipei 1 2024-05-02 28.5 21.4 5 0",
        "p weather update daily Taipei 2 someday 30 22.5 100 95",
    ] {
        let parts = words(line);
        assert!(cities.update(&parts, 3, &numbers(&parts)).is_none(), "{line}");
    }
    let head = format!("{:<12} {:<27} {:<27} ", "City", "05/02 Thu", "N/A");
    let cell = |code: u8, rain: &str, range: &str| {
        format!(
            "{} {:4} {} {}",
            columns(weather_code_emoji(code), 2),
            rain,
            columns(range, 6),
            columns(weather_code_str(code), 13)
        )
    };
    let taipei = format!(
        "Taipei       {}{}",
        cell(0, "5%", "28/21"),
        cell(95, "100%", "30/22")
    );
    assert_eq!(
        cities.page_daily(),
        format!("{head}\n{taipei}\nTokyo        ")
    );
    assert!(taipei.contains(" 5%   28/21  "));
    assert!(taipei.contains(" 100% 30/22  "));
    assert!(!taipei.contains("27/20"));

    let mut other = taipei_and_tokyo();
    let parts = words("p weather update summary Tokyo 2024-05-01T13:45 26 2");
    assert!(other.update(&parts, 3, &numbers(&parts)).is_none());
    assert_eq!(other.page_daily(), "No data");
}

#[test]
fn show_lists_the_cities_with_their_temperatures() {
    let mut cities = taipei_and_tokyo();
    let parts = words("p weather update summary Tokyo 2024-05-01T13:45 18.26 61");
    assert!(cities.update(&parts, 3, &numbers(&parts)).is_none());
    assert_eq!(
        cities.show_lines(),
        vec![
            format!("  {:<12} {:<7}", "Name", "Temp"),
            format!("  {:<12} {:<7}", "Taipei", "N/A"),
            format!("  {:<12} {:<7}", "Tokyo", "18.3°C"),
        ]
    );

    let mut unit = plugin_weather::Plugin::new(Mode::Cli);
    assert!(bus(&run(&mut unit, Action::Add, "p weather add Taipei 25.03 121.56")).len() == 1);
    assert_eq!(
        bus(&run(&mut unit, Action::Show, "p weather show")),
        vec![
            "p log log INFO 'show'".to_string(),
            "p log log INFO '  Mode: cli'".to_string(),
            "p log log INFO '  Gui panel: None'".to_string(),
            format!("p log log INFO '  {:<12} {:<7}'", "Name", "Temp"),
            format!("p log log INFO '  {:<12} {:<7}'", "Taipei", "N/A"),
        ]
    );
    assert!(run(&mut unit, Action::Gui, "p weather gui infos").is_empty());
    let shown = bus(&run(&mut unit, Action::Show, "p weather show"));
    assert_eq!(shown[2], "p log log INFO '  Gui panel: Some(\"infos\")'");
}

#[test]
fn the_weather_component_follows_its_commands() {
    let mut unit = plugin_weather::Plugin::new(Mode::Gui);
    assert_eq!(
        bus(&run(&mut unit, Action::Add, "p weather add Taipei 25.03 121.56")),
        vec!["p log log INFO 'Added city: `Taipei` (25.03, 121.56)'"]
    );
    assert!(run(&mut unit, Action::Gui, "p weather gui infos").is_empty());
    assert_eq!(
        bus(&run(&mut unit, Action::Add, "p weather add Tokyo 35.680 139.69")),
        vec![
            "p log log INFO 'Added city: `Tokyo` (35.68, 139.69)'",
            "p infos add weather Tokyo 35.68 139.69",
        ]
    );
    assert_eq!(
        bus(&run(&mut unit, Action::Add, "p weather add Tokyo 35.68 139.69")),
        vec!["p log log WARN 'City `Tokyo` already exists.'"]
    );
    assert_eq!(unit.cities.len(), 2);

    let asked = run(&mut unit, Action::Update, "p weather update");
    assert_eq!(asked.len(), 2);
    match (&asked[0], &asked[1]) {
        (
            Output::Fetch {
                name: first,
                latitude,
                longitude,
            },
            Output::Fetch { name: second, .. },
        ) => {
            assert_eq!(first, "Taipei");
            assert_eq!(latitude, "25.03");
            assert_eq!(longitude, "121.56");
            assert_eq!(latitude.parse::<f32>(), Ok(25.03f32));
            assert_eq!(second, "Tokyo");
        }
        other => panic!("{other:?}"),
    }

    assert!(run(
        &mut unit,
        Action::Update,
        "p weather update summary Paris 2024-05-01T13:45 18.26 61"
    )
    .is_empty());
    assert!(run(&mut unit, Action::Update, "p weather update summary Tokyo").is_empty());
    assert!(run(
        &mut unit,
        Action::Update,
        "p weather update summary Tokyo 2024-05-01T13:45 18.26 61"
    )
    .is_empty());
    assert_eq!(unit.cities.cities[1].weather.as_ref().unwrap().weathercode, 61);
    assert_eq!(
        bus(&run(&mut unit, Action::Update, "p weather update hourly x")),
        vec!["p log log WARN 'Invalid <weather_key> (`hourly`) for `update` command: `p weather update hourly x`'"]
    );
    assert_eq!(
        bus(&run(&mut unit, Action::Remove, "p weather remove Tokyo")),
        vec!["p log log WARN 'Unsupported action: `remove`'"]
    );
    assert_eq!(unit.cities.len(), 2);
}

#[test]
fn an_answer_of_the_weather_service_becomes_commands() {
    let weather = Weather {
        time: "2024-05-01T13:45".to_string(),
        temperature: number(18.26),
        weathercode: 61,
        daily: vec![
            WeatherDaily {
                time: "2024-05-01".to_string(),
                temperature_2m_max: number(21.0),
                temperature_2m_min: number(14.5),
                precipitation_probability_max: 80,
                weather_code: 61,
            },
            WeatherDaily {
                time: "2024-05-02".to_string(),
                temperature_2m_max: number(23.4),
                temperature_2m_min: number(15.0),
                precipitation_probability_max: 0,
                weather_code: 1,
            },
        ],
    };
    let alone = plugin_weather::fetched(Mode::Gui, &None, "Tokyo", &weather);
    assert_eq!(
        cmds(&alone),
        vec![
            "p weather update summary Tokyo 2024-05-01T13:45 18.26 61",
            "p weather update daily Tokyo 0 2024-05-01 21 14.5 80 61",
            "p weather update daily Tokyo 1 2024-05-02 23.4 15 0 1",
        ]
    );
    let panel = Some("infos".to_string());
    assert_eq!(
        cmds(&plugin_weather::fetched(Mode::Cli, &panel, "Tokyo", &weather)),
        cmds(&alone)
    );
    assert_eq!(
        cmds(&plugin_weather::fetched(Mode::Gui, &panel, "Tokyo", &weather)),
        vec![
            "p weather update summary Tokyo 2024-05-01T13:45 18.26 61",
            "p infos update weather summary Tokyo 2024-05-01T13:45 18.26 61",
            "p weather update daily Tokyo 0 2024-05-01 21 14.5 80 61",
            "p infos update weather daily Tokyo 0 2024-05-01 21 14.5 80 61",
            "p weather update daily Tokyo 1 2024-05-02 23.4 15 0 1",
            "p infos update weather daily Tokyo 1 2024-05-02 23.4 15 0 1",
        ]
    );

    let mut cities = Cities::new();
    let add = words("p infos add weather Tokyo 35.68 139.69");
    assert_eq!(
        cmds(&plugin_infos::handle_weather(
            &mut cities,
            Action::Add,
            &add,
            &numbers(&add)
        )),
        vec!["p log log INFO 'Added city: `Tokyo` (35.68, 139.69)'"]
    );
    for cmd in cmds(&plugin_weather::fetched(Mode::Gui, &panel, "Tokyo", &weather)) {
        if cmd.starts_with("p infos ") {
            let parts = words(&cmd);
            assert!(plugin_infos::handle_weather(
                &mut cities,
                Action::Update,
                &parts,
                &numbers(&parts)
            )
            .is_empty());
        }
    }
    let taken = cities.cities[0].weather.as_ref().unwrap();
    assert_eq!(taken.temperature.tenths, "18.3");
    assert_eq!(taken.daily.len(), 2);
    assert_eq!(taken.daily[1].temperature_2m_max.whole, "23");
    assert_eq!(taken.daily[1].time, "2024-05-02");

    let unknown = words("p infos update weather summary Paris 2024-05-01T13:45 18.26 61");
    assert_eq!(
        cmds(&plugin_infos::handle_weather(
            &mut cities,
            Action::Update,
            &unknown,
            &numbers(&unknown)
        )),
        vec!["p log log WARN 'City `Paris` not found.'"]
    );
}
