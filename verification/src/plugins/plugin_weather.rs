//! The weather component: it keeps a list of cities, asks for their
//! weather at intervals, and reports what it learns to a panel.
//!
//! Asking the weather service is left to the caller. The component says
//! for which places to ask ([`Output::Fetch`]), and [`fetched`] turns an
//! answer into the commands that carry it.

use vstd::prelude::*;
use vstd::string::*;
use crate::arguments::Mode;
use crate::messages::{
    effects_view, log_effect, push_effect, Action, Effect, EffectView, Level,
};
use crate::text::{decimal, decimal_spec, join, join_spec, words_view};
use crate::utils::common::{debug_option, debug_option_spec, MsgTemplate};
use crate::utils::weather::{
    add_spec, number_at, numbers_view, show_lines_spec, update_spec, Cities, CityView,
    Number, NumberView, Reason, Weather, WeatherDailyView, WeatherView,
};

verus! {

/// The name under which this component is addressed.
pub const MODULE: &'static str = "weather";

/// Seconds between two requests to the weather service: 15 minutes.
pub const WEATHER_POLLING: u64 = 900;

/// The command by which the component asks itself for new weather.
pub const UPDATE: &'static str = "p weather update";

/// What the caller is to do for the weather component.
#[derive(Debug)]
pub enum Output {
    /// Perform an effect on the bus.
    Bus(Effect),
    /// Ask the weather service for the weather at this place, and put the
    /// effects of [`fetched`] on the bus when it answers.
    Fetch { name: String, latitude: String, longitude: String },
}

/// An [`Output`] as a plain value.
pub enum OutputView {
    Bus(EffectView),
    Fetch { name: Seq<char>, latitude: Seq<char>, longitude: Seq<char> },
}

impl View for Output {
    type V = OutputView;

    open spec fn view(&self) -> OutputView {
        match *self {
            Output::Bus(e) => OutputView::Bus(e@),
            Output::Fetch { name, latitude, longitude } => OutputView::Fetch {
                name: name@,
                latitude: latitude@,
                longitude: longitude@,
            },
        }
    }
}

/// The views of a sequence of outputs.
pub open spec fn outputs_view(v: Seq<Output>) -> Seq<OutputView> {
    Seq::new(v.len(), |i: int| v[i]@)
}

/// The output that logs `msg` for information.
pub open spec fn info(msg: Seq<char>) -> OutputView {
    OutputView::Bus(log_effect(Level::Info, MODULE@, msg))
}

/// The output that logs `msg` as a warning.
pub open spec fn warning(msg: Seq<char>) -> OutputView {
    OutputView::Bus(log_effect(Level::Warn, MODULE@, msg))
}

/// The effect that puts the command `text` on the bus.
pub open spec fn send(text: Seq<char>) -> EffectView {
    EffectView::Send { origin: MODULE@, cmd: text }
}

/// The name of the panel that the component reports to, if any.
pub open spec fn panel_view(gui_panel: Option<String>) -> Option<Seq<char>> {
    match gui_panel {
        Some(p) => Some(p@),
        None => None,
    }
}

/// What the component holds.
pub struct PluginView {
    pub mode: Mode,
    pub gui_panel: Option<Seq<char>>,
    pub cities: Seq<CityView>,
}

/// The component after a command, and what the caller is to do.
pub struct Outcome {
    pub state: PluginView,
    pub outputs: Seq<OutputView>,
}

/// Whether the component reports to a panel: only with panels on the
/// terminal, and once it was told to which.
pub open spec fn reports(mode: Mode, gui_panel: Option<Seq<char>>) -> bool {
    mode == Mode::Gui && gui_panel is Some
}

/// The commands that carry `words`: one for the component itself, and one
/// for the panel where it reports to one.
pub open spec fn told(mode: Mode, gui_panel: Option<Seq<char>>, words: Seq<char>) -> Seq<
    EffectView,
> {
    if reports(mode, gui_panel) {
        seq![
            send("p weather update "@ + words),
            send("p "@ + gui_panel->0 + " update weather "@ + words),
        ]
    } else {
        seq![send("p weather update "@ + words)]
    }
}

/// The words that tell the weather of `city` as it is now.
pub open spec fn summary_words(city: Seq<char>, weather: WeatherView) -> Seq<char> {
    "summary "@ + city + " "@ + weather.time + " "@ + weather.temperature.plain + " "@
        + decimal_spec(weather.weathercode as nat)
}

/// The words that tell the weather of `city` on day `idx`.
pub open spec fn daily_words(city: Seq<char>, idx: nat, day: WeatherDailyView) -> Seq<char> {
    "daily "@ + city + " "@ + decimal_spec(idx) + " "@ + day.time + " "@
        + day.temperature_2m_max.plain + " "@ + day.temperature_2m_min.plain + " "@
        + decimal_spec(day.precipitation_probability_max as nat) + " "@ + decimal_spec(
        day.weather_code as nat,
    )
}

/// The commands that carry an answer of the weather service: the weather
/// as it is now, then its first `upto` days in their order.
pub open spec fn fetched_spec(
    mode: Mode,
    gui_panel: Option<Seq<char>>,
    city: Seq<char>,
    weather: WeatherView,
    upto: nat,
) -> Seq<EffectView>
    decreases upto,
{
    if upto == 0 {
        told(mode, gui_panel, summary_words(city, weather))
    } else {
        fetched_spec(mode, gui_panel, city, weather, (upto - 1) as nat) + told(
            mode,
            gui_panel,
            daily_words(city, (upto - 1) as nat, weather.daily[upto - 1]),
        )
    }
}

impl PluginView {
    /// The component when it starts.
    pub open spec fn start(mode: Mode) -> PluginView {
        PluginView { mode, gui_panel: None, cities: Seq::empty() }
    }

    /// A command that changes nothing.
    pub open spec fn unchanged(self, outputs: Seq<OutputView>) -> Outcome {
        Outcome { state: self, outputs }
    }

    /// `help`: what can be asked of the component.
    pub open spec fn handle_help(self) -> Outcome {
        self.unchanged(
            seq![
                info("help"@),
                info("  help"@),
                info("  show"@),
                info("  gui <gui_panel>"@),
                info("  add <name> <latitude> <longitude>"@),
            ],
        )
    }

    /// `show`: the mode, the panel, and the cities with their
    /// temperatures.
    pub open spec fn handle_show(self) -> Outcome {
        let lines = show_lines_spec(self.cities);
        self.unchanged(
            seq![
                info("show"@),
                info("  Mode: "@ + self.mode.name()),
                info("  Gui panel: "@ + debug_option_spec(self.gui_panel)),
            ] + Seq::new(lines.len(), |i: int| info(lines[i])),
        )
    }

    /// `gui <gui_panel>`: sets the panel that the component reports to.
    pub open spec fn handle_gui(self, parts: Seq<Seq<char>>) -> Outcome {
        if parts.len() > 3 {
            Outcome {
                state: PluginView { gui_panel: Some(parts[3]), ..self },
                outputs: Seq::empty(),
            }
        } else {
            self.unchanged(
                seq![
                    warning(
                        MsgTemplate::MissingParameters.format_spec(
                            "<gui_panel>"@,
                            "gui"@,
                            join_spec(parts, " "@),
                        ),
                    ),
                ],
            )
        }
    }

    /// `add <name> <latitude> <longitude>`: a new city joins the list, and
    /// the panel is told of it. A command that cannot be followed gives a
    /// warning.
    pub open spec fn handle_add(self, parts: Seq<Seq<char>>, numbers: Seq<Option<NumberView>>) -> Outcome {
        let added = add_spec(self.cities, parts, 3, numbers);
        match added.told {
            Ok(text) => Outcome {
                state: PluginView { cities: added.cities, ..self },
                outputs: if reports(self.mode, self.gui_panel) {
                    seq![
                        info(text),
                        OutputView::Bus(
                            send(
                                "p "@ + self.gui_panel->0 + " add weather "@ + parts[3] + " "@
                                    + number_at(numbers, 4)->0.plain + " "@ + number_at(
                                    numbers,
                                    5,
                                )->0.plain,
                            ),
                        ),
                    ]
                } else {
                    seq![info(text)]
                },
            },
            Err(refused) => self.unchanged(seq![warning(refused.warning)]),
        }
    }

    /// `update`: asks for the weather of every city, in their order.
    /// `update <weather_key> ...`: takes in what the words tell. Of the
    /// commands that cannot be followed, only one with a word that cannot
    /// be read gives a warning.
    pub open spec fn handle_update(self, parts: Seq<Seq<char>>, numbers: Seq<Option<NumberView>>) -> Outcome {
        if parts.len() > 3 {
            let updated = update_spec(self.cities, parts, 3, numbers);
            Outcome {
                state: PluginView { cities: updated.cities, ..self },
                outputs: match updated.refused {
                    Some(refused) => if refused.reason == Reason::Invalid {
                        seq![warning(refused.warning)]
                    } else {
                        Seq::empty()
                    },
                    None => Seq::empty(),
                },
            }
        } else {
            self.unchanged(
                Seq::new(
                    self.cities.len(),
                    |i: int|
                        OutputView::Fetch {
                            name: self.cities[i].name,
                            latitude: self.cities[i].latitude.plain,
                            longitude: self.cities[i].longitude.plain,
                        },
                ),
            )
        }
    }

    /// What the component does with a command.
    pub open spec fn step(
        self,
        action: Action,
        parts: Seq<Seq<char>>,
        numbers: Seq<Option<NumberView>>,
    ) -> Outcome {
        match action {
            Action::Help => self.handle_help(),
            Action::Show => self.handle_show(),
            Action::Gui => self.handle_gui(parts),
            Action::Update => self.handle_update(parts, numbers),
            Action::Add => self.handle_add(parts, numbers),
            _ => self.unchanged(
                seq![warning(MsgTemplate::UnsupportedAction.format_spec(action.name(), ""@, ""@))],
            ),
        }
    }
}

fn push_output(outputs: &mut Vec<Output>, o: Output)
    ensures
        outputs_view(final(outputs)@) == outputs_view(old(outputs)@).push(o@),
{
    outputs.push(o);
    assert(outputs_view(outputs@) =~= outputs_view(old(outputs)@).push(o@));
}

fn info_output(msg: &str) -> (out: Output)
    ensures
        out@ == info(msg@),
{
    Output::Bus(Effect::info(MODULE, msg))
}

fn warn_output(msg: &str) -> (out: Output)
    ensures
        out@ == warning(msg@),
{
    Output::Bus(Effect::warn(MODULE, msg))
}

/// Adds the commands that carry `words` (see [`told`]).
fn tell(out: &mut Vec<Effect>, mode: Mode, gui_panel: &Option<String>, words: &str)
    ensures
        effects_view(final(out)@) == effects_view(old(out)@) + told(
            mode,
            panel_view(*gui_panel),
            words@,
        ),
{
    let mut own = String::from_str("p weather update ");
    own.append(words);
    push_effect(out, Effect::cmd(MODULE, own.as_str()));
    let ghost first = effects_view(out@);
    match (mode, gui_panel) {
        (Mode::Gui, Some(panel)) => {
            let mut echo = String::from_str("p ");
            echo.append(panel.as_str());
            echo.append(" update weather ");
            echo.append(words);
            push_effect(out, Effect::cmd(MODULE, echo.as_str()));
            assert(effects_view(out@) =~= effects_view(old(out)@) + told(
                mode,
                Some(panel@),
                words@,
            ));
        },
        _ => {
            assert(first =~= effects_view(old(out)@) + seq![send("p weather update "@ + words@)]);
        },
    }
}

/// The commands that carry an answer of the weather service for the city
/// `city_name`: the weather as it is now, then day by day; each for the
/// component itself and, where it reports to a panel, for the panel too.
pub fn fetched(mode: Mode, gui_panel: &Option<String>, city_name: &str, weather: &Weather) -> (out:
    Vec<Effect>)
    ensures
        effects_view(out@) == fetched_spec(
            mode,
            panel_view(*gui_panel),
            city_name@,
            weather@,
            weather@.daily.len(),
        ),
{
    let ghost panel: Option<Seq<char>> = panel_view(*gui_panel);
    let mut out: Vec<Effect> = Vec::new();
    assert(effects_view(out@) =~= Seq::<EffectView>::empty());
    let mut words = String::from_str("summary ");
    words.append(city_name);
    words.append(" ");
    words.append(weather.time.as_str());
    words.append(" ");
    words.append(weather.temperature.plain.as_str());
    words.append(" ");
    words.append(decimal(weather.weathercode as u64).as_str());
    tell(&mut out, mode, gui_panel, words.as_str());
    assert(effects_view(out@) =~= fetched_spec(mode, panel, city_name@, weather@, 0));
    let mut i: usize = 0;
    while i < weather.daily.len()
        invariant
            i <= weather.daily.len(),
            panel == panel_view(*gui_panel),
            effects_view(out@) == fetched_spec(mode, panel, city_name@, weather@, i as nat),
        decreases weather.daily.len() - i,
    {
        let day = &weather.daily[i];
        assert(weather@.daily[i as int] == day@);
        let mut words = String::from_str("daily ");
        words.append(city_name);
        words.append(" ");
        words.append(decimal(i as u64).as_str());
        words.append(" ");
        words.append(day.time.as_str());
        words.append(" ");
        words.append(day.temperature_2m_max.plain.as_str());
        words.append(" ");
        words.append(day.temperature_2m_min.plain.as_str());
        words.append(" ");
        words.append(decimal(day.precipitation_probability_max as u64).as_str());
        words.append(" ");
        words.append(decimal(day.weather_code as u64).as_str());
        tell(&mut out, mode, gui_panel, words.as_str());
        i += 1;
    }
    out
}

/// The weather component.
#[derive(Debug)]
pub struct Plugin {
    pub mode: Mode,
    pub gui_panel: Option<String>,
    pub cities: Cities,
}

impl View for Plugin {
    type V = PluginView;

    open spec fn view(&self) -> PluginView {
        PluginView {
            mode: self.mode,
            gui_panel: panel_view(self.gui_panel),
            cities: self.cities@,
        }
    }
}

impl Plugin {
    /// The component, which reports to no panel yet and knows no city.
    pub fn new(mode: Mode) -> (out: Plugin)
        ensures
            out@ == PluginView::start(mode),
    {
        Plugin { mode, gui_panel: None, cities: Cities::new() }
    }

    /// The command that is sent at the start and then at every interval.
    pub fn init(&self) -> (out: Effect)
        ensures
            out@ == (EffectView::Send { origin: MODULE@, cmd: UPDATE@ }),
    {
        Effect::cmd(MODULE, UPDATE)
    }

    /// `help`: what can be asked of the component.
    pub fn handle_cmd_help(&self) -> (out: Vec<Output>)
        ensures
            outputs_view(out@) == self@.handle_help().outputs,
    {
        let mut out: Vec<Output> = Vec::new();
        push_output(&mut out, info_output("help"));
        push_output(&mut out, info_output("  help"));
        push_output(&mut out, info_output("  show"));
        push_output(&mut out, info_output("  gui <gui_panel>"));
        push_output(&mut out, info_output("  add <name> <latitude> <longitude>"));
        assert(outputs_view(out@) =~= self@.handle_help().outputs);
        out
    }

    /// `show`: the mode, the panel, and the cities with their
    /// temperatures.
    pub fn handle_cmd_show(&self) -> (out: Vec<Output>)
        ensures
            outputs_view(out@) == self@.handle_show().outputs,
    {
        let mut out: Vec<Output> = Vec::new();
        push_output(&mut out, info_output("show"));
        let mut mode = String::from_str("  Mode: ");
        mode.append(self.mode.as_ref());
        push_output(&mut out, info_output(mode.as_str()));
        let mut panel = String::from_str("  Gui panel: ");
        panel.append(debug_option(&self.gui_panel).as_str());
        push_output(&mut out, info_output(panel.as_str()));
        let lines = self.cities.show_lines();
        let ghost head = outputs_view(out@);
        let ghost shown = show_lines_spec(self@.cities);
        let mut i: usize = 0;
        while i < lines.len()
            invariant
                i <= lines.len(),
                words_view(lines@) == shown,
                outputs_view(out@) == head + Seq::new(i as nat, |j: int| info(shown[j])),
            decreases lines.len() - i,
        {
            assert(words_view(lines@)[i as int] == lines@[i as int]@);
            push_output(&mut out, info_output(lines[i].as_str()));
            assert(outputs_view(out@) =~= head + Seq::new((i + 1) as nat, |j: int| info(shown[j])));
            i += 1;
        }
        assert(outputs_view(out@) =~= self@.handle_show().outputs);
        out
    }

    /// `gui <gui_panel>`: sets the panel that the component reports to;
    /// without a panel, warns and changes nothing.
    pub fn handle_cmd_gui(&mut self, cmd_parts: &Vec<String>) -> (out: Vec<Output>)
        ensures
            final(self)@ == old(self)@.handle_gui(words_view(cmd_parts@)).state,
            outputs_view(out@) == old(self)@.handle_gui(words_view(cmd_parts@)).outputs,
    {
        let mut out: Vec<Output> = Vec::new();
        if cmd_parts.len() > 3 {
            assert(words_view(cmd_parts@)[3] == cmd_parts@[3]@);
            self.gui_panel = Some(cmd_parts[3].clone());
            assert(outputs_view(out@) =~= Seq::<OutputView>::empty());
        } else {
            let line = join(cmd_parts, " ");
            push_output(
                &mut out,
                warn_output(
                    MsgTemplate::MissingParameters.format(
                        "<gui_panel>",
                        "gui",
                        line.as_str(),
                    ).as_str(),
                ),
            );
            assert(outputs_view(out@) =~= old(self)@.handle_gui(words_view(cmd_parts@)).outputs);
        }
        out
    }

    /// `add <name> <latitude> <longitude>`; `numbers` holds what each word
    /// of the command reads as a number.
    pub fn handle_cmd_add(&mut self, cmd_parts: &Vec<String>, numbers: &Vec<Option<Number>>) -> (out:
        Vec<Output>)
        ensures
            final(self)@ == old(self)@.handle_add(
                words_view(cmd_parts@),
                numbers_view(numbers@),
            ).state,
            outputs_view(out@) == old(self)@.handle_add(
                words_view(cmd_parts@),
                numbers_view(numbers@),
            ).outputs,
    {
        let ghost parts = words_view(cmd_parts@);
        let ghost read = numbers_view(numbers@);
        let mut out: Vec<Output> = Vec::new();
        match self.cities.add(cmd_parts, 3, numbers) {
            Ok(text) => {
                push_output(&mut out, info_output(text.as_str()));
                match (self.mode, &self.gui_panel) {
                    (Mode::Gui, Some(panel)) => {
                        assert(parts[3] == cmd_parts@[3]@);
                        assert(read[4] == match numbers@[4] {
                            Some(n) => Some(n@),
                            None => None,
                        });
                        assert(read[5] == match numbers@[5] {
                            Some(n) => Some(n@),
                            None => None,
                        });
                        match (&numbers[4], &numbers[5]) {
                            (Some(latitude), Some(longitude)) => {
                                let mut echo = String::from_str("p ");
                                echo.append(panel.as_str());
                                echo.append(" add weather ");
                                echo.append(cmd_parts[3].as_str());
                                echo.append(" ");
                                echo.append(latitude.plain.as_str());
                                echo.append(" ");
                                echo.append(longitude.plain.as_str());
                                push_output(&mut out, Output::Bus(Effect::cmd(MODULE, echo.as_str())));
                            },
                            _ => {},
                        }
                    },
                    _ => {},
                }
                assert(outputs_view(out@) =~= old(self)@.handle_add(parts, read).outputs);
            },
            Err(refused) => {
                push_output(&mut out, warn_output(refused.warning.as_str()));
                assert(outputs_view(out@) =~= old(self)@.handle_add(parts, read).outputs);
            },
        }
        out
    }

    /// `update`, or `update <weather_key> ...`; `numbers` holds what each
    /// word of the command reads as a number.
    pub fn handle_cmd_update(&mut self, cmd_parts: &Vec<String>, numbers: &Vec<Option<Number>>) -> (out:
        Vec<Output>)
        ensures
            final(self)@ == old(self)@.handle_update(
                words_view(cmd_parts@),
                numbers_view(numbers@),
            ).state,
            outputs_view(out@) == old(self)@.handle_update(
                words_view(cmd_parts@),
                numbers_view(numbers@),
            ).outputs,
    {
        let ghost parts = words_view(cmd_parts@);
        let ghost read = numbers_view(numbers@);
        let mut out: Vec<Output> = Vec::new();
        if cmd_parts.len() > 3 {
            match self.cities.update(cmd_parts, 3, numbers) {
                Some(refused) => {
                    if refused.reason == Reason::Invalid {
                        push_output(&mut out, warn_output(refused.warning.as_str()));
                    }
                },
                None => {},
            }
            assert(outputs_view(out@) =~= old(self)@.handle_update(parts, read).outputs);
        } else {
            let mut i: usize = 0;
            while i < self.cities.cities.len()
                invariant
                    i <= self.cities.cities.len(),
                    *self == *old(self),
                    outputs_view(out@) == Seq::new(
                        i as nat,
                        |j: int|
                            OutputView::Fetch {
                                name: self@.cities[j].name,
                                latitude: self@.cities[j].latitude.plain,
                                longitude: self@.cities[j].longitude.plain,
                            },
                    ),
                decreases self.cities.cities.len() - i,
            {
                let city = &self.cities.cities[i];
                assert(self@.cities[i as int] == city@);
                push_output(
                    &mut out,
                    Output::Fetch {
                        name: city.name.clone(),
                        latitude: city.latitude.plain.clone(),
                        longitude: city.longitude.plain.clone(),
                    },
                );
                assert(outputs_view(out@) =~= Seq::new(
                    (i + 1) as nat,
                    |j: int|
                        OutputView::Fetch {
                            name: self@.cities[j].name,
                            latitude: self@.cities[j].latitude.plain,
                            longitude: self@.cities[j].longitude.plain,
                        },
                ));
                i += 1;
            }
            assert(outputs_view(out@) =~= old(self)@.handle_update(parts, read).outputs);
        }
        out
    }

    /// Follows a command: `action` with the words `cmd_parts` of the whole
    /// command; `numbers` holds what each word reads as a number (see
    /// [`PluginView::step`]).
    pub fn handle_action(
        &mut self,
        action: Action,
        cmd_parts: &Vec<String>,
        numbers: &Vec<Option<Number>>,
    ) -> (out: Vec<Output>)
        ensures
            final(self)@ == old(self)@.step(
                action,
                words_view(cmd_parts@),
                numbers_view(numbers@),
            ).state,
            outputs_view(out@) == old(self)@.step(
                action,
                words_view(cmd_parts@),
                numbers_view(numbers@),
            ).outputs,
    {
        match action {
            Action::Help => self.handle_cmd_help(),
            Action::Show => self.handle_cmd_show(),
            Action::Gui => self.handle_cmd_gui(cmd_parts),
            Action::Update => self.handle_cmd_update(cmd_parts, numbers),
            Action::Add => self.handle_cmd_add(cmd_parts, numbers),
            _ => {
                let mut out: Vec<Output> = Vec::new();
                push_output(
                    &mut out,
                    warn_output(
                        MsgTemplate::UnsupportedAction.format(action.as_ref(), "", "").as_str(),
                    ),
                );
                assert(outputs_view(out@) =~= seq![
                    warning(MsgTemplate::UnsupportedAction.format_spec(action.name(), ""@, ""@)),
                ]);
                out
            },
        }
    }
}

} // verus!
