//! The info panel: a panel of three pages, one for the devices and two for
//! the weather.

use vstd::prelude::*;
use vstd::string::*;
use crate::consts::NA;
use crate::messages::{
    effects_view, log_effect, no_effect, one_effect, Action, DeviceKey, Effect, EffectView,
    InfoKey, Key, Level,
};
use crate::plugins::plugin_devices::{
    app_uptime_spec, app_uptime_str, onboard_spec, onboard_str, option_view, or_na, updated,
    DevInfo, DevInfoView,
};
use crate::plugins::plugins_main::{
    handle_action_gui, handle_action_key_position, handle_gui, key_position, lemma_position,
    lemma_position_is, position, redraw_cmd,
};
use crate::text::{
    concat3, join, join_spec, lines, lines_spec, pad_right, pad_right_spec, parse_unsigned,
    parse_unsigned_spec, words_view,
};
use crate::utils::common::MsgTemplate;
use crate::utils::panel::{
    cells, cells_spec, scroll_offset, scroll_offset_spec, Line, LineStyle, LineView,
    PanelDrawing, PanelDrawingView, PanelInfo, PanelType, Rect,
};
use crate::utils::time::{ts_str_local, MAX_TS};
use crate::utils::weather::{
    add_spec, current_page, daily_page, numbers_view, stamps_fit, update_spec, Cities,
    CityView, Number, NumberView,
};

verus! {

/// The name under which this component is addressed.
pub const MODULE: &'static str = "infos";

/// The number of pages.
pub const PAGES: usize = 3;

/// The command that asks for the panels to be drawn after the page changed.
pub const REDRAW: &'static str = "p plugins redraw infos";

/// What the caller is to do for the info panel.
#[derive(Debug)]
pub enum Output {
    /// Perform an effect on the bus.
    Bus(Effect),
    /// Hand the command to the pages for the weather.
    Weather { action: Action, cmd_parts: Vec<String> },
}

/// An [`Output`] as a plain value.
pub enum OutputView {
    Bus(EffectView),
    Weather { action: Action, cmd_parts: Seq<Seq<char>> },
}

impl View for Output {
    type V = OutputView;

    open spec fn view(&self) -> OutputView {
        match *self {
            Output::Bus(e) => OutputView::Bus(e@),
            Output::Weather { action, cmd_parts } => OutputView::Weather {
                action,
                cmd_parts: words_view(cmd_parts@),
            },
        }
    }
}

/// The views of a sequence of outputs.
pub open spec fn outputs_view(v: Seq<Output>) -> Seq<OutputView> {
    Seq::new(v.len(), |i: int| v[i]@)
}

/// The info panel.
#[derive(Debug)]
pub struct PluginUnit {
    panel_info: PanelInfo,
    output: String,
    page_idx: usize,
    devices: Vec<DevInfo>,
}

/// A [`PluginUnit`] as a plain value.
pub struct UnitView {
    pub panel_info: PanelInfo,
    pub output: Seq<char>,
    pub page_idx: nat,
    pub devices: Seq<DevInfoView>,
}

/// A state of the panel together with what the caller is to do.
pub struct Outcome {
    pub state: UnitView,
    pub outputs: Seq<OutputView>,
}

/// The output that logs `msg` for information.
pub open spec fn info(msg: Seq<char>) -> OutputView {
    OutputView::Bus(log_effect(Level::Info, MODULE@, msg))
}

/// The output that logs `msg` as a warning.
pub open spec fn warning(msg: Seq<char>) -> OutputView {
    OutputView::Bus(log_effect(Level::Warn, MODULE@, msg))
}

/// The warning that the command `action` lacks the parameter `what`.
pub open spec fn missing(what: Seq<char>, action: Seq<char>, parts: Seq<Seq<char>>) -> OutputView {
    warning(MsgTemplate::MissingParameters.format_spec(what, action, join_spec(parts, " "@)))
}

/// The warning that the parameter `what` of the command `action` cannot be
/// `given`.
pub open spec fn invalid(
    what: Seq<char>,
    given: Seq<char>,
    action: Seq<char>,
    parts: Seq<Seq<char>>,
) -> OutputView {
    warning(
        MsgTemplate::InvalidParameters.format_spec(
            what + " (`"@ + given + "`)"@,
            action,
            join_spec(parts, " "@),
        ),
    )
}

/// The title of page `page`.
pub open spec fn sub_title(page: nat) -> Seq<char> {
    if page == 0 {
        "devices"@
    } else if page == 1 {
        "weather current"@
    } else {
        "weather daily"@
    }
}

/// One row of the page of devices.
pub open spec fn row_spec(
    name: Seq<char>,
    onboard: Seq<char>,
    version: Seq<char>,
    tailscale_ip: Seq<char>,
    temperature: Seq<char>,
    app_uptime: Seq<char>,
    updated: Seq<char>,
) -> Seq<char> {
    pad_right_spec(name, 12) + " "@ + pad_right_spec(onboard, 7) + " "@ + pad_right_spec(
        version,
        10,
    ) + " "@ + pad_right_spec(tailscale_ip, 16) + " "@ + pad_right_spec(temperature, 7) + " "@
        + pad_right_spec(app_uptime, 13) + " "@ + pad_right_spec(updated, 16)
}

/// The page of devices with its first `upto` devices; `times` are the times
/// of their last reports as text.
pub open spec fn devices_page(devices: Seq<DevInfoView>, times: Seq<Seq<char>>, upto: nat) -> Seq<
    char,
>
    decreases upto,
{
    if upto == 0 {
        row_spec(
            "Name"@,
            "Onboard"@,
            "Version"@,
            "Tailscale IP"@,
            "Temp"@,
            "App Uptime"@,
            "Last Update"@,
        )
    } else {
        let d = devices[upto - 1];
        devices_page(devices, times, (upto - 1) as nat) + "\n"@ + row_spec(
            d.name,
            onboard_spec(d.onboard),
            or_na(d.version),
            or_na(d.tailscale_ip),
            or_na(d.temperature),
            app_uptime_spec(d.app_uptime),
            times[upto - 1],
        )
    }
}

impl UnitView {
    /// The panel when it starts: on its first page.
    pub open spec fn start() -> UnitView {
        UnitView {
            panel_info: PanelInfo { panel_type: PanelType::Normal, x: 0, y: 0, w: 0, h: 0 },
            output: Seq::empty(),
            page_idx: 0,
            devices: Seq::empty(),
        }
    }

    /// The page is one of the pages, and every time of a report is one that
    /// can be shown.
    pub open spec fn wf(self) -> bool {
        &&& self.page_idx < PAGES
        &&& forall|i: int| 0 <= i < self.devices.len() ==> (#[trigger] self.devices[i]).ts
            <= MAX_TS
    }

    /// The names of the devices.
    pub open spec fn names(self) -> Seq<Seq<char>> {
        Seq::new(self.devices.len(), |i: int| self.devices[i].name)
    }

    /// This state with the given outputs.
    pub open spec fn unchanged(self, outputs: Seq<OutputView>) -> Outcome {
        Outcome { state: self, outputs }
    }

    /// `update devices <key> <name> <value>`: what a device reported is
    /// kept. A device that comes on board and is not known yet is added;
    /// other reports of unknown devices are dropped. For a temperature,
    /// `shown` is the value as it is shown.
    pub open spec fn update_devices(
        self,
        parts: Seq<Seq<char>>,
        ts: u64,
        shown: Option<Seq<char>>,
    ) -> Outcome {
        if parts.len() <= 4 {
            self.unchanged(seq![missing("<device_key>"@, "update"@, parts)])
        } else {
            match DeviceKey::named(parts[4]) {
                None => self.unchanged(seq![invalid("<device_key>"@, parts[4], "update"@, parts)]),
                Some(key) => if parts.len() < 7 {
                    self.unchanged(
                        seq![missing("<name> <"@ + key.name() + ">"@, "update"@, parts)],
                    )
                } else if key == DeviceKey::AppUptime && parse_unsigned_spec(
                    parts[6],
                    u64::MAX as nat,
                ) is None {
                    self.unchanged(seq![invalid("<app_uptime>"@, parts[6], "update"@, parts)])
                } else {
                    match position(self.names(), parts[5]) {
                        Some(i) => Outcome {
                            state: UnitView {
                                devices: self.devices.update(
                                    i as int,
                                    updated(self.devices[i as int], key, ts, parts[6], shown),
                                ),
                                ..self
                            },
                            outputs: Seq::empty(),
                        },
                        None => if key == DeviceKey::Onboard {
                            Outcome {
                                state: UnitView {
                                    devices: self.devices.push(
                                        DevInfoView {
                                            ts,
                                            name: parts[5],
                                            onboard: parts[6] == "1"@,
                                            version: None,
                                            tailscale_ip: None,
                                            temperature: None,
                                            app_uptime: None,
                                        },
                                    ),
                                    ..self
                                },
                                outputs: Seq::empty(),
                            }
                        } else {
                            self.unchanged(Seq::empty())
                        },
                    }
                },
            }
        }
    }

    /// `update <info_key> ...`: an update for the devices is taken here; one
    /// for the weather is handed on.
    pub open spec fn handle_update(
        self,
        parts: Seq<Seq<char>>,
        ts: u64,
        shown: Option<Seq<char>>,
    ) -> Outcome {
        if parts.len() <= 3 {
            self.unchanged(seq![missing("<info_key>"@, "update"@, parts)])
        } else {
            match InfoKey::named(parts[3]) {
                Some(InfoKey::Devices) => self.update_devices(parts, ts, shown),
                Some(InfoKey::Weather) => self.unchanged(
                    seq![OutputView::Weather { action: Action::Update, cmd_parts: parts }],
                ),
                None => self.unchanged(seq![invalid("<info_key>"@, parts[3], "update"@, parts)]),
            }
        }
    }

    /// `add <info_key> ...`: only the weather knows additions.
    pub open spec fn handle_add(self, parts: Seq<Seq<char>>) -> Outcome {
        if parts.len() <= 3 {
            self.unchanged(seq![missing("<info_key>"@, "add"@, parts)])
        } else {
            match InfoKey::named(parts[3]) {
                Some(InfoKey::Weather) => self.unchanged(
                    seq![OutputView::Weather { action: Action::Add, cmd_parts: parts }],
                ),
                _ => self.unchanged(seq![invalid("<info_key>"@, parts[3], "add"@, parts)]),
            }
        }
    }

    /// `key <code>`: left and right turn the pages, round and round; eight
    /// keys move or resize the panel.
    pub open spec fn handle_key(self, parts: Seq<Seq<char>>) -> Outcome {
        if parts.len() <= 3 {
            self.unchanged(seq![missing("<key>"@, "key"@, parts)])
        } else {
            match Key::named(parts[3]) {
                None => self.unchanged(seq![invalid("<key>"@, parts[3], "key"@, parts)]),
                Some(key) => match key {
                    Key::Left => Outcome {
                        state: UnitView {
                            page_idx: if self.page_idx > 0 {
                                (self.page_idx - 1) as nat
                            } else {
                                (PAGES - 1) as nat
                            },
                            ..self
                        },
                        outputs: Seq::empty(),
                    },
                    Key::Right => Outcome {
                        state: UnitView {
                            page_idx: if self.page_idx + 1 < PAGES {
                                self.page_idx + 1
                            } else {
                                0
                            },
                            ..self
                        },
                        outputs: Seq::empty(),
                    },
                    Key::AltUp
                    | Key::AltDown
                    | Key::AltLeft
                    | Key::AltRight
                    | Key::AltW
                    | Key::AltS
                    | Key::AltA
                    | Key::AltD => {
                        let p = self.panel_info;
                        let place = key_position(key, p.x, p.y, p.w, p.h);
                        Outcome {
                            state: UnitView {
                                panel_info: PanelInfo {
                                    x: place.0,
                                    y: place.1,
                                    w: place.2,
                                    h: place.3,
                                    ..p
                                },
                                ..self
                            },
                            outputs: seq![
                                OutputView::Bus(
                                    EffectView::Send { origin: MODULE@, cmd: redraw_cmd() },
                                ),
                            ],
                        }
                    },
                    _ => self.unchanged(Seq::empty()),
                },
            }
        }
    }

    /// What the panel does with a command that arrives at the second `ts`.
    pub open spec fn step(
        self,
        action: Action,
        parts: Seq<Seq<char>>,
        ts: u64,
        shown: Option<Seq<char>>,
    ) -> Outcome {
        match action {
            Action::Help => self.unchanged(seq![info("help"@)]),
            Action::Show => self.unchanged(
                seq![
                    info("show"@),
                    info("  Page 1: devices"@),
                    info("  Page 2: weather current"@),
                    info("  Page 3: weather daily"@),
                ],
            ),
            Action::Gui => match handle_gui(MODULE@, parts) {
                Ok(pair) => Outcome {
                    state: UnitView { panel_info: pair.0, ..self },
                    outputs: seq![OutputView::Bus(pair.1)],
                },
                Err(w) => self.unchanged(seq![OutputView::Bus(w)]),
            },
            Action::Key => self.handle_key(parts),
            Action::Update => self.handle_update(parts, ts, shown),
            Action::Add => self.handle_add(parts),
            _ => self.unchanged(
                seq![warning(MsgTemplate::UnsupportedAction.format_spec(action.name(), ""@, ""@))],
            ),
        }
    }

    /// How the panel is drawn: number and title of the page on the frame,
    /// the page as content.
    pub open spec fn draw(self, area: Rect, active: bool) -> PanelDrawingView {
        let cells = cells_spec(self.panel_info, area);
        let rows = lines_spec(self.output);
        PanelDrawingView {
            area: cells,
            title: "infos -  - "@ + crate::text::decimal_spec(self.page_idx + 1) + "/3 - "@
                + sub_title(self.page_idx),
            active,
            scroll: scroll_offset_spec(rows.len(), cells.height),
            lines: Seq::new(
                rows.len(),
                |i: int| LineView { text: rows[i], style: LineStyle::Plain },
            ),
            cursor: None,
        }
    }
}

impl View for PluginUnit {
    type V = UnitView;

    closed spec fn view(&self) -> UnitView {
        UnitView {
            panel_info: self.panel_info,
            output: self.output@,
            page_idx: self.page_idx as nat,
            devices: Seq::new(self.devices@.len(), |i: int| self.devices@[i]@),
        }
    }
}

fn push_output(outputs: &mut Vec<Output>, o: Output)
    ensures
        outputs_view(final(outputs)@) == outputs_view(old(outputs)@).push(o@),
{
    outputs.push(o);
    assert(outputs_view(outputs@) =~= outputs_view(old(outputs)@).push(o@));
}

fn one(o: Output) -> (out: Vec<Output>)
    ensures
        outputs_view(out@) == seq![o@],
{
    let mut out: Vec<Output> = Vec::new();
    push_output(&mut out, o);
    assert(outputs_view(out@) =~= seq![o@]);
    out
}

fn none() -> (out: Vec<Output>)
    ensures
        outputs_view(out@) == Seq::<OutputView>::empty(),
{
    let out: Vec<Output> = Vec::new();
    assert(outputs_view(out@) =~= Seq::<OutputView>::empty());
    out
}

fn info_output(msg: &str) -> (out: Output)
    ensures
        out@ == info(msg@),
{
    Output::Bus(Effect::info(MODULE, msg))
}

fn missing_output(what: &str, action: &str, cmd_parts: &Vec<String>) -> (out: Output)
    ensures
        out@ == missing(what@, action@, words_view(cmd_parts@)),
{
    let line = join(cmd_parts, " ");
    Output::Bus(
        Effect::warn(
            MODULE,
            MsgTemplate::MissingParameters.format(what, action, line.as_str()).as_str(),
        ),
    )
}

fn invalid_output(what: &str, given: &str, action: &str, cmd_parts: &Vec<String>) -> (out: Output)
    ensures
        out@ == invalid(what@, given@, action@, words_view(cmd_parts@)),
{
    let mut param = String::from_str(what);
    param.append(" (`");
    param.append(given);
    param.append("`)");
    let line = join(cmd_parts, " ");
    Output::Bus(
        Effect::warn(
            MODULE,
            MsgTemplate::InvalidParameters.format(param.as_str(), action, line.as_str()).as_str(),
        ),
    )
}

fn row(
    name: &str,
    onboard: &str,
    version: &str,
    tailscale_ip: &str,
    temperature: &str,
    app_uptime: &str,
    updated: &str,
) -> (out: String)
    ensures
        out@ == row_spec(
            name@,
            onboard@,
            version@,
            tailscale_ip@,
            temperature@,
            app_uptime@,
            updated@,
        ),
{
    let mut out = pad_right(name, 12);
    out.append(" ");
    out.append(pad_right(onboard, 7).as_str());
    out.append(" ");
    out.append(pad_right(version, 10).as_str());
    out.append(" ");
    out.append(pad_right(tailscale_ip, 16).as_str());
    out.append(" ");
    out.append(pad_right(temperature, 7).as_str());
    out.append(" ");
    out.append(pad_right(app_uptime, 13).as_str());
    out.append(" ");
    out.append(pad_right(updated, 16).as_str());
    out
}

fn text_or_na(s: &Option<String>) -> (out: &str)
    ensures
        out@ == or_na(option_view(*s)),
{
    match s {
        Some(s) => s.as_str(),
        None => NA,
    }
}

fn clone_option(s: &Option<String>) -> (out: Option<String>)
    ensures
        option_view(out) == option_view(*s),
{
    match s {
        Some(s) => Some(s.clone()),
        None => None,
    }
}

impl PluginUnit {
    /// Whether the panel is in order (see [`UnitView::wf`]).
    pub open spec fn wf(&self) -> bool {
        self@.wf()
    }

    /// The panel when it starts.
    pub fn new() -> (out: PluginUnit)
        ensures
            out@ == UnitView::start(),
            out.wf(),
    {
        let out = PluginUnit {
            panel_info: PanelInfo::new(PanelType::Normal),
            output: String::new(),
            page_idx: 0,
            devices: Vec::new(),
        };
        assert(out@.devices =~= Seq::empty());
        out
    }

    /// The panel of the component.
    pub fn panel_info(&self) -> (out: PanelInfo)
        ensures
            out == self@.panel_info,
    {
        self.panel_info
    }

    /// The page that is shown, counted from 0.
    pub fn page(&self) -> (out: usize)
        ensures
            out == self@.page_idx,
    {
        self.page_idx
    }

    /// What the panel shows.
    pub fn output(&self) -> (out: &str)
        ensures
            out@ == self@.output,
    {
        self.output.as_str()
    }

    /// The devices, in the order in which they appeared.
    pub fn devices(&self) -> (out: &Vec<DevInfo>)
        ensures
            out@.len() == self@.devices.len(),
            forall|i: int| 0 <= i < out@.len() ==> (#[trigger] out@[i])@ == self@.devices[i],
    {
        &self.devices
    }

    /// Sets what the panel shows, and asks for the panels to be drawn.
    pub fn output_update(&mut self, msg: &str) -> (out: Effect)
        ensures
            final(self)@ == (UnitView { output: msg@, ..old(self)@ }),
            out@ == (EffectView::Send { origin: MODULE@, cmd: REDRAW@ }),
    {
        self.output = String::from_str(msg);
        Effect::cmd(MODULE, REDRAW)
    }

    /// Writes the page of devices, given the times of their last reports as
    /// text (see [`devices_page`]).
    pub fn update_devices_at(&self, times: &Vec<String>) -> (out: String)
        requires
            times.len() == self@.devices.len(),
        ensures
            out@ == devices_page(self@.devices, words_view(times@), self@.devices.len()),
    {
        let mut out = row(
            "Name",
            "Onboard",
            "Version",
            "Tailscale IP",
            "Temp",
            "App Uptime",
            "Last Update",
        );
        let mut i: usize = 0;
        while i < self.devices.len()
            invariant
                i <= self.devices.len(),
                times.len() == self.devices.len(),
                out@ == devices_page(self@.devices, words_view(times@), i as nat),
            decreases self.devices.len() - i,
        {
            let d = &self.devices[i];
            proof {
                assert(self@.devices[i as int] == self.devices@[i as int]@);
                assert(words_view(times@)[i as int] == times@[i as int]@);
            }
            out.append("\n");
            out.append(
                row(
                    d.name.as_str(),
                    onboard_str(d.onboard),
                    text_or_na(&d.version),
                    text_or_na(&d.tailscale_ip),
                    text_or_na(&d.temperature),
                    app_uptime_str(d.app_uptime).as_str(),
                    times[i].as_str(),
                ).as_str(),
            );
            i += 1;
        }
        out
    }

    /// Writes the page of devices, with the times of the last reports in the
    /// time zone of this machine.
    pub fn update_devices(&self) -> (out: String)
        requires
            self.wf(),
        ensures
            exists|times: Seq<Seq<char>>|
                times.len() == self@.devices.len() && out@ == #[trigger] devices_page(
                    self@.devices,
                    times,
                    self@.devices.len(),
                ),
    {
        let mut times: Vec<String> = Vec::new();
        let mut i: usize = 0;
        while i < self.devices.len()
            invariant
                i <= self.devices.len(),
                self.wf(),
                times.len() == i,
            decreases self.devices.len() - i,
        {
            proof {
                assert(self@.devices[i as int] == self.devices@[i as int]@);
                assert(self@.devices[i as int].ts <= MAX_TS);
            }
            times.push(ts_str_local(self.devices[i].ts));
            i += 1;
        }
        self.update_devices_at(&times)
    }

    fn find(&self, name: &str) -> (out: Option<usize>)
        ensures
            out matches Some(i) ==> i < self.devices.len() && position(self@.names(), name@)
                == Some(i as nat),
            out is None ==> position(self@.names(), name@) is None,
    {
        let ghost names = self@.names();
        let mut i: usize = 0;
        while i < self.devices.len()
            invariant
                i <= self.devices.len(),
                names == self@.names(),
                names.len() == self.devices.len(),
                forall|j: int| 0 <= j < i ==> names[j] != name@,
            decreases self.devices.len() - i,
        {
            proof {
                assert(names[i as int] == self.devices@[i as int].name@);
            }
            if self.devices[i].name.as_str().eq(name) {
                proof {
                    lemma_position_is(names, name@, i as int);
                }
                return Some(i);
            }
            i += 1;
        }
        proof {
            lemma_position(names, name@);
        }
        None
    }

    fn handle_action_update_devices(
        &mut self,
        cmd_parts: &Vec<String>,
        ts: u64,
        shown: &Option<String>,
    ) -> (out: Vec<Output>)
        requires
            old(self).wf(),
            ts <= MAX_TS,
        ensures
            final(self).wf(),
            final(self)@ == old(self)@.update_devices(
                words_view(cmd_parts@),
                ts,
                option_view(*shown),
            ).state,
            outputs_view(out@) == old(self)@.update_devices(
                words_view(cmd_parts@),
                ts,
                option_view(*shown),
            ).outputs,
    {
        if cmd_parts.len() <= 4 {
            return one(missing_output("<device_key>", "update", cmd_parts));
        }
        let key = match DeviceKey::parse(cmd_parts[4].as_str()) {
            None => {
                return one(
                    invalid_output("<device_key>", cmd_parts[4].as_str(), "update", cmd_parts),
                );
            },
            Some(key) => key,
        };
        if cmd_parts.len() < 7 {
            let what = concat3("<name> <", key.as_ref(), ">");
            return one(missing_output(what.as_str(), "update", cmd_parts));
        }
        let name = cmd_parts[5].as_str();
        let value = cmd_parts[6].as_str();
        let uptime = parse_unsigned(value, u64::MAX);
        if key == DeviceKey::AppUptime && uptime.is_none() {
            return one(invalid_output("<app_uptime>", value, "update", cmd_parts));
        }
        match self.find(name) {
            Some(i) => {
                let ghost before = self@.devices[i as int];
                assert(before == self.devices@[i as int]@);
                self.devices[i].ts = ts;
                match key {
                    DeviceKey::Onboard => {
                        self.devices[i].onboard = value.eq("1");
                    },
                    DeviceKey::Version => {
                        self.devices[i].version = Some(String::from_str(value));
                    },
                    DeviceKey::TailscaleIp => {
                        self.devices[i].tailscale_ip = Some(String::from_str(value));
                    },
                    DeviceKey::Temperature => {
                        self.devices[i].temperature = clone_option(shown);
                    },
                    DeviceKey::AppUptime => {
                        self.devices[i].app_uptime = uptime;
                    },
                }
                proof {
                    assert(self@.devices =~= old(self)@.devices.update(
                        i as int,
                        updated(before, key, ts, value@, option_view(*shown)),
                    ));
                }
            },
            None => {
                if key == DeviceKey::Onboard {
                    self.devices.push(
                        DevInfo {
                            ts,
                            name: String::from_str(name),
                            onboard: value.eq("1"),
                            version: None,
                            tailscale_ip: None,
                            temperature: None,
                            app_uptime: None,
                        },
                    );
                    proof {
                        assert(self@.devices =~= old(self)@.devices.push(
                            DevInfoView {
                                ts,
                                name: name@,
                                onboard: value@ == "1"@,
                                version: None,
                                tailscale_ip: None,
                                temperature: None,
                                app_uptime: None,
                            },
                        ));
                    }
                }
            },
        }
        none()
    }

    fn handle_action_key(&mut self, cmd_parts: &Vec<String>) -> (out: Vec<Output>)
        requires
            old(self).wf(),
        ensures
            final(self).wf(),
            final(self)@ == old(self)@.handle_key(words_view(cmd_parts@)).state,
            outputs_view(out@) == old(self)@.handle_key(words_view(cmd_parts@)).outputs,
    {
        if cmd_parts.len() <= 3 {
            return one(missing_output("<key>", "key", cmd_parts));
        }
        match Key::parse(cmd_parts[3].as_str()) {
            None => one(invalid_output("<key>", cmd_parts[3].as_str(), "key", cmd_parts)),
            Some(key) => match key {
                Key::Left => {
                    if self.page_idx > 0 {
                        self.page_idx -= 1;
                    } else {
                        self.page_idx = PAGES - 1;
                    }
                    proof {
                        assert(self@.devices =~= old(self)@.devices);
                    }
                    none()
                },
                Key::Right => {
                    if self.page_idx + 1 < PAGES {
                        self.page_idx += 1;
                    } else {
                        self.page_idx = 0;
                    }
                    proof {
                        assert(self@.devices =~= old(self)@.devices);
                    }
                    none()
                },
                Key::AltUp
                | Key::AltDown
                | Key::AltLeft
                | Key::AltRight
                | Key::AltW
                | Key::AltS
                | Key::AltA
                | Key::AltD => {
                    let p = self.panel_info;
                    let moved = handle_action_key_position(MODULE, key, p.x, p.y, p.w, p.h);
                    let place = moved.0;
                    self.panel_info = PanelInfo {
                        panel_type: p.panel_type,
                        x: place.0,
                        y: place.1,
                        w: place.2,
                        h: place.3,
                    };
                    proof {
                        assert(self@.devices =~= old(self)@.devices);
                    }
                    one(Output::Bus(moved.1))
                },
                _ => none(),
            },
        }
    }

    /// Handles a command that arrives at the second `ts`; for the
    /// temperature of a device, `shown` is the value as it is shown (see
    /// [`UnitView::step`]). After it the page is to be written anew and
    /// handed to [`PluginUnit::output_update`].
    pub fn handle_action(
        &mut self,
        action: Action,
        cmd_parts: &Vec<String>,
        ts: u64,
        shown: &Option<String>,
    ) -> (out: Vec<Output>)
        requires
            old(self).wf(),
            ts <= MAX_TS,
        ensures
            final(self).wf(),
            final(self)@ == old(self)@.step(
                action,
                words_view(cmd_parts@),
                ts,
                option_view(*shown),
            ).state,
            outputs_view(out@) == old(self)@.step(
                action,
                words_view(cmd_parts@),
                ts,
                option_view(*shown),
            ).outputs,
    {
        let ghost spec = self@.step(action, words_view(cmd_parts@), ts, option_view(*shown));
        match action {
            Action::Help => one(info_output("help")),
            Action::Show => {
                let mut out: Vec<Output> = Vec::new();
                push_output(&mut out, info_output("show"));
                push_output(&mut out, info_output("  Page 1: devices"));
                push_output(&mut out, info_output("  Page 2: weather current"));
                push_output(&mut out, info_output("  Page 3: weather daily"));
                assert(outputs_view(out@) =~= spec.outputs);
                out
            },
            Action::Gui => match handle_action_gui(MODULE, cmd_parts) {
                Ok(pair) => {
                    self.panel_info = pair.0;
                    proof {
                        assert(self@.devices =~= old(self)@.devices);
                    }
                    one(Output::Bus(pair.1))
                },
                Err(w) => one(Output::Bus(w)),
            },
            Action::Key => self.handle_action_key(cmd_parts),
            Action::Update => {
                if cmd_parts.len() <= 3 {
                    return one(missing_output("<info_key>", "update", cmd_parts));
                }
                match InfoKey::parse(cmd_parts[3].as_str()) {
                    Some(InfoKey::Devices) => self.handle_action_update_devices(
                        cmd_parts,
                        ts,
                        shown,
                    ),
                    Some(InfoKey::Weather) => one(
                        Output::Weather { action: Action::Update, cmd_parts: cmd_parts.clone() },
                    ),
                    None => one(
                        invalid_output("<info_key>", cmd_parts[3].as_str(), "update", cmd_parts),
                    ),
                }
            },
            Action::Add => {
                if cmd_parts.len() <= 3 {
                    return one(missing_output("<info_key>", "add", cmd_parts));
                }
                match InfoKey::parse(cmd_parts[3].as_str()) {
                    Some(InfoKey::Weather) => one(
                        Output::Weather { action: Action::Add, cmd_parts: cmd_parts.clone() },
                    ),
                    _ => one(
                        invalid_output("<info_key>", cmd_parts[3].as_str(), "add", cmd_parts),
                    ),
                }
            },
            _ => one(
                Output::Bus(
                    Effect::warn(
                        MODULE,
                        MsgTemplate::UnsupportedAction.format(action.as_ref(), "", "").as_str(),
                    ),
                ),
            ),
        }
    }

    /// Says how the panel is drawn in a terminal that covers `area` (see
    /// [`UnitView::draw`]).
    pub fn draw(&self, area: Rect, active: bool) -> (out: PanelDrawing)
        requires
            self.wf(),
        ensures
            out@ == self@.draw(area, active),
    {
        let area_cells = cells(&self.panel_info, area);
        let texts = lines(self.output.as_str());
        let ghost rows = lines_spec(self@.output);
        let mut content: Vec<Line> = Vec::new();
        let mut i: usize = 0;
        while i < texts.len()
            invariant
                i <= texts.len(),
                words_view(texts@) == rows,
                content.len() == i,
                forall|j: int|
                    0 <= j < i ==> (#[trigger] content@[j])@ == (LineView {
                        text: rows[j],
                        style: LineStyle::Plain,
                    }),
            decreases texts.len() - i,
        {
            proof {
                assert(rows[i as int] == texts@[i as int]@);
            }
            content.push(Line { text: texts[i].clone(), style: LineStyle::Plain });
            i += 1;
        }
        let mut title = String::from_str("infos -  - ");
        crate::text::push_decimal(&mut title, (self.page_idx + 1) as u64);
        title.append("/3 - ");
        title.append(
            if self.page_idx == 0 {
                "devices"
            } else if self.page_idx == 1 {
                "weather current"
            } else {
                "weather daily"
            },
        );
        let out = PanelDrawing {
            area: area_cells,
            title,
            active,
            scroll: scroll_offset(texts.len(), area_cells.height),
            lines: content,
            cursor: None,
        };
        proof {
            assert(out@.lines =~= self@.draw(area, active).lines);
        }
        out
    }
}

/// The cities after a command for the pages of the weather, and what is
/// logged.
pub struct WeatherOutcome {
    pub cities: Seq<CityView>,
    pub effects: Seq<EffectView>,
}

/// What a command that was handed on for the weather does to the cities of
/// the pages: `add weather <name> <latitude> <longitude>` adds a city and
/// says so; `update weather <weather_key> ...` takes in what the words
/// tell. A command that cannot be followed gives a warning.
pub open spec fn weather_spec(
    cities: Seq<CityView>,
    action: Action,
    parts: Seq<Seq<char>>,
    numbers: Seq<Option<NumberView>>,
) -> WeatherOutcome {
    if action == Action::Add {
        let added = add_spec(cities, parts, 4, numbers);
        WeatherOutcome {
            cities: added.cities,
            effects: match added.told {
                Ok(text) => seq![log_effect(Level::Info, MODULE@, text)],
                Err(refused) => seq![log_effect(Level::Warn, MODULE@, refused.warning)],
            },
        }
    } else {
        let updated = update_spec(cities, parts, 4, numbers);
        WeatherOutcome {
            cities: updated.cities,
            effects: match updated.refused {
                Some(refused) => seq![log_effect(Level::Warn, MODULE@, refused.warning)],
                None => Seq::empty(),
            },
        }
    }
}

/// Follows a command that [`Output::Weather`] handed on; `numbers` holds
/// what each word of the command reads as a number (see [`weather_spec`]).
pub fn handle_weather(
    cities: &mut Cities,
    action: Action,
    cmd_parts: &Vec<String>,
    numbers: &Vec<Option<Number>>,
) -> (out: Vec<Effect>)
    ensures
        final(cities)@ == weather_spec(
            old(cities)@,
            action,
            words_view(cmd_parts@),
            numbers_view(numbers@),
        ).cities,
        effects_view(out@) == weather_spec(
            old(cities)@,
            action,
            words_view(cmd_parts@),
            numbers_view(numbers@),
        ).effects,
{
    match action {
        Action::Add => match cities.add(cmd_parts, 4, numbers) {
            Ok(text) => one_effect(Effect::info(MODULE, text.as_str())),
            Err(refused) => one_effect(Effect::warn(MODULE, refused.warning.as_str())),
        },
        _ => match cities.update(cmd_parts, 4, numbers) {
            Some(refused) => one_effect(Effect::warn(MODULE, refused.warning.as_str())),
            None => no_effect(),
        },
    }
}

/// Writes the page that the panel is on: the devices, the weather as it is
/// now, or the weather of the coming days. Times are written in the time
/// zone of this machine.
pub fn page_text(unit: &PluginUnit, cities: &Cities) -> (out: String)
    requires
        unit.wf(),
    ensures
        unit@.page_idx == 0 ==> exists|times: Seq<Seq<char>>|
            times.len() == unit@.devices.len() && out@ == #[trigger] devices_page(
                unit@.devices,
                times,
                unit@.devices.len(),
            ),
        unit@.page_idx == 1 ==> exists|stamps: Seq<Seq<char>>| #[trigger]
            stamps_fit(cities@, stamps) && out@ == current_page(cities@, stamps, cities@.len()),
        unit@.page_idx == 2 ==> out@ == daily_page(cities@),
{
    if unit.page() == 0 {
        unit.update_devices()
    } else if unit.page() == 1 {
        cities.page_current()
    } else {
        cities.page_daily()
    }
}

} // verus!
