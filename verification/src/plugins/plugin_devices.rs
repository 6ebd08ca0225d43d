//! The registry of devices: which instances are on board, and what each of
//! them reported about itself.

use vstd::prelude::*;
use vstd::string::*;
use crate::arguments::Mode;
use crate::consts::NA;
use crate::messages::{log_effect, Action, DeviceKey, Effect, EffectView, Level};
use crate::plugins::plugins_main::{lemma_position, lemma_position_is, position};
use crate::text::{
    concat3, join, join_spec, pad_right, pad_right_spec, parse_unsigned, parse_unsigned_spec,
    words_view,
};
use crate::utils::common::{cmd_action_spec, get_cmd_action, MsgTemplate};
use crate::utils::time::{ts_str_full, ts_str_local, uptime_str, uptime_str_spec, MAX_TS};

verus! {

/// The name under which this component is addressed.
pub const MODULE: &'static str = "devices";

/// What is known of a device. `temperature` is the temperature as it is
/// shown, where the device reported one.
#[derive(Debug)]
pub struct DevInfo {
    pub ts: u64,
    pub name: String,
    pub onboard: bool,
    pub version: Option<String>,
    pub tailscale_ip: Option<String>,
    pub temperature: Option<String>,
    pub app_uptime: Option<u64>,
}

/// A [`DevInfo`] as a plain value.
pub struct DevInfoView {
    pub ts: u64,
    pub name: Seq<char>,
    pub onboard: bool,
    pub version: Option<Seq<char>>,
    pub tailscale_ip: Option<Seq<char>>,
    pub temperature: Option<Seq<char>>,
    pub app_uptime: Option<u64>,
}

/// The view of an optional string.
pub open spec fn option_view(s: Option<String>) -> Option<Seq<char>> {
    match s {
        Some(s) => Some(s@),
        None => None,
    }
}

impl View for DevInfo {
    type V = DevInfoView;

    open spec fn view(&self) -> DevInfoView {
        DevInfoView {
            ts: self.ts,
            name: self.name@,
            onboard: self.onboard,
            version: option_view(self.version),
            tailscale_ip: option_view(self.tailscale_ip),
            temperature: option_view(self.temperature),
            app_uptime: self.app_uptime,
        }
    }
}

/// What the caller is to do for the device registry.
#[derive(Debug)]
pub enum Output {
    /// Perform an effect on the bus.
    Bus(Effect),
    /// Post the command `cmd` to the device `device_name` at `ip`.
    PostCmd { device_name: String, ip: String, cmd: String },
}

/// An [`Output`] as a plain value.
pub enum OutputView {
    Bus(EffectView),
    PostCmd { device_name: Seq<char>, ip: Seq<char>, cmd: Seq<char> },
}

impl View for Output {
    type V = OutputView;

    open spec fn view(&self) -> OutputView {
        match *self {
            Output::Bus(e) => OutputView::Bus(e@),
            Output::PostCmd { device_name, ip, cmd } => OutputView::PostCmd {
                device_name: device_name@,
                ip: ip@,
                cmd: cmd@,
            },
        }
    }
}

/// The views of a sequence of outputs.
pub open spec fn outputs_view(v: Seq<Output>) -> Seq<OutputView> {
    Seq::new(v.len(), |i: int| v[i]@)
}

/// `On` or `Off`.
pub open spec fn onboard_spec(onboard: bool) -> Seq<char> {
    if onboard {
        "On"@
    } else {
        "Off"@
    }
}

/// The text, or the mark for "not known".
pub open spec fn or_na(s: Option<Seq<char>>) -> Seq<char> {
    match s {
        Some(s) => s,
        None => NA@,
    }
}

/// The uptime as text, or the mark for "not known".
pub open spec fn app_uptime_spec(app_uptime: Option<u64>) -> Seq<char> {
    match app_uptime {
        Some(t) => uptime_str_spec(t as nat),
        None => NA@,
    }
}

/// `On` for a device that is on board, `Off` for one that is not.
pub fn onboard_str(onboard: bool) -> (out: &'static str)
    ensures
        out@ == onboard_spec(onboard),
{
    if onboard {
        "On"
    } else {
        "Off"
    }
}

/// The version, or the mark for "not known".
pub fn version_str(version: &Option<String>) -> (out: &str)
    ensures
        out@ == or_na(option_view(*version)),
{
    match version {
        Some(v) => v.as_str(),
        None => NA,
    }
}

/// The address, or the mark for "not known".
pub fn tailscale_ip_str(tailscale_ip: &Option<String>) -> (out: &str)
    ensures
        out@ == or_na(option_view(*tailscale_ip)),
{
    match tailscale_ip {
        Some(ip) => ip.as_str(),
        None => NA,
    }
}

/// The uptime as `<days>d HH:MM:SS`, or the mark for "not known".
pub fn app_uptime_str(app_uptime: Option<u64>) -> (out: String)
    ensures
        out@ == app_uptime_spec(app_uptime),
{
    match app_uptime {
        Some(t) => uptime_str(t),
        None => String::from_str(NA),
    }
}

/// One row of the table of devices.
pub open spec fn row_spec(
    name: Seq<char>,
    onboard: Seq<char>,
    version: Seq<char>,
    tailscale_ip: Seq<char>,
    temperature: Seq<char>,
    app_uptime: Seq<char>,
    updated: Seq<char>,
) -> Seq<char> {
    "  "@ + pad_right_spec(name, 12) + " "@ + pad_right_spec(onboard, 7) + " "@ + pad_right_spec(
        version,
        8,
    ) + " "@ + pad_right_spec(tailscale_ip, 15) + " "@ + pad_right_spec(temperature, 6) + " "@
        + pad_right_spec(app_uptime, 12) + " "@ + pad_right_spec(updated, 16)
}

/// The row of the table for one device; `updated` is the time of its last
/// report as text.
pub open spec fn device_row(d: DevInfoView, updated: Seq<char>) -> Seq<char> {
    row_spec(
        d.name,
        onboard_spec(d.onboard),
        or_na(d.version),
        or_na(d.tailscale_ip),
        or_na(d.temperature),
        app_uptime_spec(d.app_uptime),
        updated,
    )
}

/// The device registry.
#[derive(Debug)]
pub struct Plugin {
    mode: Mode,
    devices: Vec<DevInfo>,
}

/// A [`Plugin`] as a plain value.
pub struct PluginView {
    pub mode: Mode,
    pub devices: Seq<DevInfoView>,
}

/// A state of the component together with what the caller is to do.
pub struct Outcome {
    pub state: PluginView,
    pub outputs: Seq<OutputView>,
}

/// The output that logs `msg` for information, in the name of the component.
pub open spec fn info(msg: Seq<char>) -> OutputView {
    OutputView::Bus(log_effect(Level::Info, MODULE@, msg))
}

/// The output that logs `msg` as a warning, in the name of the component.
pub open spec fn warning(msg: Seq<char>) -> OutputView {
    OutputView::Bus(log_effect(Level::Warn, MODULE@, msg))
}

/// The output that puts the command `cmd` on the bus.
pub open spec fn send(cmd: Seq<char>) -> OutputView {
    OutputView::Bus(EffectView::Send { origin: MODULE@, cmd })
}

/// The command that tells the info panel of a report.
pub open spec fn infos_cmd(key: DeviceKey, name: Seq<char>, value: Seq<char>) -> Seq<char> {
    "p infos update devices "@ + key.name() + " "@ + name + " "@ + value
}

/// The report to the info panel, which is made only with panels.
pub open spec fn told(mode: Mode, key: DeviceKey, name: Seq<char>, value: Seq<char>) -> Seq<
    OutputView,
> {
    if mode == Mode::Gui {
        seq![send(infos_cmd(key, name, value))]
    } else {
        Seq::empty()
    }
}

/// What a device reported, as it is kept. For the temperature, `shown` is
/// the value as it is shown, or `None` where the device reported none.
pub open spec fn updated(
    d: DevInfoView,
    key: DeviceKey,
    ts: u64,
    value: Seq<char>,
    shown: Option<Seq<char>>,
) -> DevInfoView {
    match key {
        DeviceKey::Onboard => DevInfoView { ts, onboard: value == "1"@, ..d },
        DeviceKey::Version => DevInfoView { ts, version: Some(value), ..d },
        DeviceKey::TailscaleIp => DevInfoView { ts, tailscale_ip: Some(value), ..d },
        DeviceKey::Temperature => DevInfoView { ts, temperature: shown, ..d },
        DeviceKey::AppUptime => DevInfoView {
            ts,
            app_uptime: match parse_unsigned_spec(value, u64::MAX as nat) {
                Some(n) => Some(n as u64),
                None => None,
            },
            ..d
        },
    }
}

impl PluginView {
    /// The names of the devices, in the order in which they appeared.
    pub open spec fn names(self) -> Seq<Seq<char>> {
        Seq::new(self.devices.len(), |i: int| self.devices[i].name)
    }

    /// Every time of a report is one that can be shown.
    pub open spec fn wf(self) -> bool {
        forall|i: int| 0 <= i < self.devices.len() ==> (#[trigger] self.devices[i]).ts <= MAX_TS
    }

    /// This state with the given outputs.
    pub open spec fn unchanged(self, outputs: Seq<OutputView>) -> Outcome {
        Outcome { state: self, outputs }
    }

    /// A device reports whether it is on board. A device that is not known
    /// yet is added. Where this is news, it is logged with the time as text,
    /// the system is asked to report itself when a device came on board,
    /// and the info panel is told.
    pub open spec fn update_onboard(
        self,
        name: Seq<char>,
        value: Seq<char>,
        ts: u64,
        time: Seq<char>,
    ) -> Outcome {
        let onboard = value == "1"@;
        let news = seq![info(name + " "@ + onboard_spec(onboard) + " at "@ + time)] + (if onboard {
            seq![send("p system update"@)]
        } else {
            Seq::empty()
        }) + told(self.mode, DeviceKey::Onboard, name, value);
        match position(self.names(), name) {
            Some(i) => Outcome {
                state: PluginView {
                    devices: self.devices.update(
                        i as int,
                        updated(self.devices[i as int], DeviceKey::Onboard, ts, value, None),
                    ),
                    ..self
                },
                outputs: if onboard != self.devices[i as int].onboard {
                    news
                } else {
                    Seq::empty()
                },
            },
            None => Outcome {
                state: PluginView {
                    devices: self.devices.push(
                        DevInfoView {
                            ts,
                            name,
                            onboard,
                            version: None,
                            tailscale_ip: None,
                            temperature: None,
                            app_uptime: None,
                        },
                    ),
                    ..self
                },
                outputs: news,
            },
        }
    }

    /// A device that is known reports something else about itself: it is
    /// kept, and the info panel is told. Reports of unknown devices are
    /// dropped.
    pub open spec fn update_other(
        self,
        key: DeviceKey,
        name: Seq<char>,
        value: Seq<char>,
        ts: u64,
        shown: Option<Seq<char>>,
    ) -> Outcome {
        match position(self.names(), name) {
            Some(i) => Outcome {
                state: PluginView {
                    devices: self.devices.update(
                        i as int,
                        updated(self.devices[i as int], key, ts, value, shown),
                    ),
                    ..self
                },
                outputs: told(self.mode, key, name, value),
            },
            None => self.unchanged(Seq::empty()),
        }
    }

    /// `update <key> <name> <value>`: a device reports about itself.
    pub open spec fn handle_update(
        self,
        parts: Seq<Seq<char>>,
        ts: u64,
        time: Seq<char>,
        shown: Option<Seq<char>>,
    ) -> Outcome {
        if parts.len() < 6 {
            self.unchanged(
                seq![
                    warning(
                        MsgTemplate::MissingParameters.format_spec(
                            "<key> <name> <value>"@,
                            "update"@,
                            join_spec(parts, " "@),
                        ),
                    ),
                ],
            )
        } else {
            match DeviceKey::named(parts[3]) {
                Some(DeviceKey::Onboard) => self.update_onboard(parts[4], parts[5], ts, time),
                Some(key) => self.update_other(key, parts[4], parts[5], ts, shown),
                None => self.unchanged(
                    seq![
                        warning(
                            MsgTemplate::InvalidParameters.format_spec(
                                "<device_key> (`{device_key}`)"@,
                                "update"@,
                                join_spec(parts, " "@),
                            ),
                        ),
                    ],
                ),
            }
        }
    }

    /// `cmd <device_name> "<cmd>"`: the command is posted to the device,
    /// where the device is known and its address too.
    pub open spec fn handle_cmd(self, parts: Seq<Seq<char>>) -> Outcome {
        if parts.len() < 5 {
            self.unchanged(
                seq![
                    warning(
                        MsgTemplate::MissingParameters.format_spec(
                            "<device_name> \"<cmd>\""@,
                            "cmd"@,
                            join_spec(parts, " "@),
                        ),
                    ),
                ],
            )
        } else {
            match position(self.names(), parts[3]) {
                Some(i) => match self.devices[i as int].tailscale_ip {
                    Some(ip) => self.unchanged(
                        seq![
                            info(
                                "Sending command to device `"@ + parts[3] + "` at "@ + ip + ": `"@
                                    + parts[4] + "`"@,
                            ),
                            OutputView::PostCmd { device_name: parts[3], ip, cmd: parts[4] },
                        ],
                    ),
                    None => self.unchanged(
                        seq![warning("Device `"@ + parts[3] + "` has no Tailscale IP"@)],
                    ),
                },
                None => self.unchanged(seq![warning("Device `"@ + parts[3] + "` not found"@)]),
            }
        }
    }

    /// `help`: what can be asked of the component.
    pub open spec fn handle_help(self) -> Outcome {
        self.unchanged(
            seq![
                info("help"@),
                info("  help"@),
                info("  show"@),
                info("  cmd <device_name> \"<cmd>\""@),
            ],
        )
    }

    /// `show`: the table of devices; `times` are the times of their last
    /// reports as text.
    pub open spec fn handle_show(self, times: Seq<Seq<char>>) -> Outcome {
        self.unchanged(
            seq![
                info("show"@),
                info(
                    row_spec(
                        "Name"@,
                        "Onboard"@,
                        "Version"@,
                        "Tailscale IP"@,
                        "Temp"@,
                        "App uptime"@,
                        "Last update"@,
                    ),
                ),
            ] + Seq::new(
                self.devices.len(),
                |i: int| info(device_row(self.devices[i], times[i])),
            ),
        )
    }
}

impl View for Plugin {
    type V = PluginView;

    closed spec fn view(&self) -> PluginView {
        PluginView {
            mode: self.mode,
            devices: Seq::new(self.devices@.len(), |i: int| self.devices@[i]@),
        }
    }
}

fn push_output(outputs: &mut Vec<Output>, o: Output)
    ensures
        outputs_view(final(outputs)@) == outputs_view(old(outputs)@).push(o@),
{
    outputs.push(o);
    assert(outputs_view(outputs@) =~= outputs_view(old(outputs)@).push(o@));
}

fn one(o: Output) -> (out: Vec<Output>)
    ensures
        outputs_view(out@) == seq![o@],
{
    let mut out: Vec<Output> = Vec::new();
    push_output(&mut out, o);
    assert(outputs_view(out@) =~= seq![o@]);
    out
}

fn none() -> (out: Vec<Output>)
    ensures
        outputs_view(out@) == Seq::<OutputView>::empty(),
{
    let out: Vec<Output> = Vec::new();
    assert(outputs_view(out@) =~= Seq::<OutputView>::empty());
    out
}

fn info_output(msg: &str) -> (out: Output)
    ensures
        out@ == info(msg@),
{
    Output::Bus(Effect::info(MODULE, msg))
}

fn warn_output(msg: &str) -> (out: Output)
    ensures
        out@ == warning(msg@),
{
    Output::Bus(Effect::warn(MODULE, msg))
}

fn send_output(cmd: &str) -> (out: Output)
    ensures
        out@ == send(cmd@),
{
    Output::Bus(Effect::cmd(MODULE, cmd))
}

fn row(
    name: &str,
    onboard: &str,
    version: &str,
    tailscale_ip: &str,
    temperature: &str,
    app_uptime: &str,
    updated: &str,
) -> (out: String)
    ensures
        out@ == row_spec(
            name@,
            onboard@,
            version@,
            tailscale_ip@,
            temperature@,
            app_uptime@,
            updated@,
        ),
{
    let mut out = String::from_str("  ");
    out.append(pad_right(name, 12).as_str());
    out.append(" ");
    out.append(pad_right(onboard, 7).as_str());
    out.append(" ");
    out.append(pad_right(version, 8).as_str());
    out.append(" ");
    out.append(pad_right(tailscale_ip, 15).as_str());
    out.append(" ");
    out.append(pad_right(temperature, 6).as_str());
    out.append(" ");
    out.append(pad_right(app_uptime, 12).as_str());
    out.append(" ");
    out.append(pad_right(updated, 16).as_str());
    out
}

fn clone_option(s: &Option<String>) -> (out: Option<String>)
    ensures
        option_view(out) == option_view(*s),
{
    match s {
        Some(s) => Some(s.clone()),
        None => None,
    }
}

impl Plugin {
    /// Whether the registry is in order (see [`PluginView::wf`]).
    pub open spec fn wf(&self) -> bool {
        self@.wf()
    }

    /// The registry without devices.
    pub fn new(mode: Mode) -> (out: Plugin)
        ensures
            out@ == (PluginView { mode, devices: Seq::empty() }),
            out.wf(),
    {
        let out = Plugin { mode, devices: Vec::new() };
        assert(out@.devices =~= Seq::empty());
        out
    }

    /// The devices, in the order in which they appeared.
    pub fn devices(&self) -> (out: &Vec<DevInfo>)
        ensures
            out@.len() == self@.devices.len(),
            forall|i: int| 0 <= i < out@.len() ==> (#[trigger] out@[i])@ == self@.devices[i],
    {
        &self.devices
    }

    fn find(&self, name: &str) -> (out: Option<usize>)
        ensures
            out matches Some(i) ==> i < self.devices.len() && position(self@.names(), name@)
                == Some(i as nat),
            out is None ==> position(self@.names(), name@) is None,
    {
        let ghost names = self@.names();
        let mut i: usize = 0;
        while i < self.devices.len()
            invariant
                i <= self.devices.len(),
                names == self@.names(),
                names.len() == self.devices.len(),
                forall|j: int| 0 <= j < i ==> names[j] != name@,
            decreases self.devices.len() - i,
        {
            proof {
                assert(names[i as int] == self.devices@[i as int].name@);
            }
            if self.devices[i].name.as_str().eq(name) {
                proof {
                    lemma_position_is(names, name@, i as int);
                }
                return Some(i);
            }
            i += 1;
        }
        proof {
            lemma_position(names, name@);
        }
        None
    }

    fn tell(&self, out: &mut Vec<Output>, key: DeviceKey, name: &str, value: &str)
        ensures
            outputs_view(final(out)@) == outputs_view(old(out)@) + told(
                self@.mode,
                key,
                name@,
                value@,
            ),
    {
        if self.mode == Mode::Gui {
            let mut text = String::from_str("p infos update devices ");
            text.append(key.as_ref());
            text.append(" ");
            text.append(name);
            text.append(" ");
            text.append(value);
            push_output(out, send_output(text.as_str()));
            assert(outputs_view(out@) =~= outputs_view(old(out)@) + seq![
                send(infos_cmd(key, name@, value@)),
            ]);
        } else {
            assert(outputs_view(out@) =~= outputs_view(old(out)@) + Seq::<OutputView>::empty());
        }
    }

    /// Takes the report of a device on whether it is on board, made at the
    /// second `ts`, whose date and time read `time` (see
    /// [`PluginView::update_onboard`]).
    pub fn handle_update_onboard(&mut self, name: &str, value: &str, ts: u64, time: &str) -> (out:
        Vec<Output>)
        requires
            old(self).wf(),
            ts <= MAX_TS,
        ensures
            final(self).wf(),
            final(self)@ == old(self)@.update_onboard(name@, value@, ts, time@).state,
            outputs_view(out@) == old(self)@.update_onboard(name@, value@, ts, time@).outputs,
    {
        let onboard = value.eq("1");
        let changed = match self.find(name) {
            Some(i) => {
                let ghost before = self@.devices[i as int];
                assert(before == self.devices@[i as int]@);
                let changed = onboard != self.devices[i].onboard;
                self.devices[i].ts = ts;
                self.devices[i].onboard = onboard;
                proof {
                    assert(self@.devices =~= old(self)@.devices.update(
                        i as int,
                        updated(before, DeviceKey::Onboard, ts, value@, None),
                    ));
                }
                changed
            },
            None => {
                self.devices.push(
                    DevInfo {
                        ts,
                        name: String::from_str(name),
                        onboard,
                        version: None,
                        tailscale_ip: None,
                        temperature: None,
                        app_uptime: None,
                    },
                );
                proof {
                    assert(self@.devices =~= old(self)@.devices.push(
                        DevInfoView {
                            ts,
                            name: name@,
                            onboard,
                            version: None,
                            tailscale_ip: None,
                            temperature: None,
                            app_uptime: None,
                        },
                    ));
                }
                true
            },
        };
        if !changed {
            return none();
        }
        let mut out: Vec<Output> = Vec::new();
        let mut text = String::from_str(name);
        text.append(" ");
        text.append(onboard_str(onboard));
        text.append(" at ");
        text.append(time);
        push_output(&mut out, info_output(text.as_str()));
        if onboard {
            push_output(&mut out, send_output("p system update"));
        }
        self.tell(&mut out, DeviceKey::Onboard, name, value);
        proof {
            assert(outputs_view(out@) =~= old(self)@.update_onboard(
                name@,
                value@,
                ts,
                time@,
            ).outputs);
        }
        out
    }

    /// Takes another report of a device, made at the second `ts`; for a
    /// temperature, `shown` is the value as it is shown (see
    /// [`PluginView::update_other`]).
    pub fn handle_update_other(
        &mut self,
        key: DeviceKey,
        name: &str,
        value: &str,
        ts: u64,
        shown: &Option<String>,
    ) -> (out: Vec<Output>)
        requires
            old(self).wf(),
            ts <= MAX_TS,
        ensures
            final(self).wf(),
            final(self)@ == old(self)@.update_other(
                key,
                name@,
                value@,
                ts,
                option_view(*shown),
            ).state,
            outputs_view(out@) == old(self)@.update_other(
                key,
                name@,
                value@,
                ts,
                option_view(*shown),
            ).outputs,
    {
        match self.find(name) {
            None => none(),
            Some(i) => {
                let ghost before = self@.devices[i as int];
                assert(before == self.devices@[i as int]@);
                self.devices[i].ts = ts;
                match key {
                    DeviceKey::Onboard => {
                        self.devices[i].onboard = value.eq("1");
                    },
                    DeviceKey::Version => {
                        self.devices[i].version = Some(String::from_str(value));
                    },
                    DeviceKey::TailscaleIp => {
                        self.devices[i].tailscale_ip = Some(String::from_str(value));
                    },
                    DeviceKey::Temperature => {
                        self.devices[i].temperature = clone_option(shown);
                    },
                    DeviceKey::AppUptime => {
                        self.devices[i].app_uptime = parse_unsigned(value, u64::MAX);
                    },
                }
                proof {
                    assert(self@.devices =~= old(self)@.devices.update(
                        i as int,
                        updated(before, key, ts, value@, option_view(*shown)),
                    ));
                }
                let mut out: Vec<Output> = Vec::new();
                self.tell(&mut out, key, name, value);
                proof {
                    assert(outputs_view(out@) =~= told(self@.mode, key, name@, value@));
                }
                out
            },
        }
    }

    /// Handles `update <key> <name> <value>`, given the date and time of
    /// `ts` as text (see [`PluginView::handle_update`]).
    pub fn handle_cmd_update_at(
        &mut self,
        cmd_parts: &Vec<String>,
        ts: u64,
        time: &str,
        shown: &Option<String>,
    ) -> (out: Vec<Output>)
        requires
            old(self).wf(),
            ts <= MAX_TS,
        ensures
            final(self).wf(),
            final(self)@ == old(self)@.handle_update(
                words_view(cmd_parts@),
                ts,
                time@,
                option_view(*shown),
            ).state,
            outputs_view(out@) == old(self)@.handle_update(
                words_view(cmd_parts@),
                ts,
                time@,
                option_view(*shown),
            ).outputs,
    {
        if cmd_parts.len() < 6 {
            let line = join(cmd_parts, " ");
            return one(
                warn_output(
                    MsgTemplate::MissingParameters.format(
                        "<key> <name> <value>",
                        "update",
                        line.as_str(),
                    ).as_str(),
                ),
            );
        }
        let name = cmd_parts[4].as_str();
        let value = cmd_parts[5].as_str();
        match DeviceKey::parse(cmd_parts[3].as_str()) {
            Some(DeviceKey::Onboard) => self.handle_update_onboard(name, value, ts, time),
            Some(key) => self.handle_update_other(key, name, value, ts, shown),
            None => {
                let line = join(cmd_parts, " ");
                one(
                    warn_output(
                        MsgTemplate::InvalidParameters.format(
                            "<device_key> (`{device_key}`)",
                            "update",
                            line.as_str(),
                        ).as_str(),
                    ),
                )
            },
        }
    }

    /// Handles `update <key> <name> <value>` for a report made at the second
    /// `ts`. The log shows date and time in the time zone of this machine;
    /// all else is as [`PluginView::handle_update`] says.
    pub fn handle_cmd_update(&mut self, cmd_parts: &Vec<String>, ts: u64, shown: &Option<String>) -> (out:
        Vec<Output>)
        requires
            old(self).wf(),
            ts <= MAX_TS,
        ensures
            final(self).wf(),
            exists|time: Seq<char>|
                {
                    &&& final(self)@ == (#[trigger] old(self)@.handle_update(
                        words_view(cmd_parts@),
                        ts,
                        time,
                        option_view(*shown),
                    )).state
                    &&& outputs_view(out@) == old(self)@.handle_update(
                        words_view(cmd_parts@),
                        ts,
                        time,
                        option_view(*shown),
                    ).outputs
                },
    {
        let time = ts_str_full(ts);
        self.handle_cmd_update_at(cmd_parts, ts, time.as_str(), shown)
    }

    /// Handles `cmd <device_name> "<cmd>"` (see [`PluginView::handle_cmd`]).
    pub fn handle_cmd(&self, cmd_parts: &Vec<String>) -> (out: Vec<Output>)
        ensures
            outputs_view(out@) == self@.handle_cmd(words_view(cmd_parts@)).outputs,
    {
        if cmd_parts.len() < 5 {
            let line = join(cmd_parts, " ");
            return one(
                warn_output(
                    MsgTemplate::MissingParameters.format(
                        "<device_name> \"<cmd>\"",
                        "cmd",
                        line.as_str(),
                    ).as_str(),
                ),
            );
        }
        let device_name = cmd_parts[3].as_str();
        let cmd = cmd_parts[4].as_str();
        match self.find(device_name) {
            Some(i) => {
                proof {
                    assert(self@.devices[i as int] == self.devices@[i as int]@);
                }
                match &self.devices[i].tailscale_ip {
                    Some(ip) => {
                        let mut text = String::from_str("Sending command to device `");
                        text.append(device_name);
                        text.append("` at ");
                        text.append(ip.as_str());
                        text.append(": `");
                        text.append(cmd);
                        text.append("`");
                        let mut out: Vec<Output> = Vec::new();
                        push_output(&mut out, info_output(text.as_str()));
                        push_output(
                            &mut out,
                            Output::PostCmd {
                                device_name: String::from_str(device_name),
                                ip: ip.clone(),
                                cmd: String::from_str(cmd),
                            },
                        );
                        assert(outputs_view(out@) =~= self@.handle_cmd(
                            words_view(cmd_parts@),
                        ).outputs);
                        out
                    },
                    None => one(
                        warn_output(
                            concat3("Device `", device_name, "` has no Tailscale IP").as_str(),
                        ),
                    ),
                }
            },
            None => one(warn_output(concat3("Device `", device_name, "` not found").as_str())),
        }
    }

    /// Handles `help`.
    pub fn handle_cmd_help(&self) -> (out: Vec<Output>)
        ensures
            outputs_view(out@) == self@.handle_help().outputs,
    {
        let mut out: Vec<Output> = Vec::new();
        push_output(&mut out, info_output("help"));
        push_output(&mut out, info_output("  help"));
        push_output(&mut out, info_output("  show"));
        push_output(&mut out, info_output("  cmd <device_name> \"<cmd>\""));
        assert(outputs_view(out@) =~= self@.handle_help().outputs);
        out
    }

    /// Handles `show`: the table of devices. The times of the last reports
    /// are shown in the time zone of this machine; all else is as
    /// [`PluginView::handle_show`] says.
    pub fn handle_cmd_show(&self) -> (out: Vec<Output>)
        requires
            self.wf(),
        ensures
            exists|times: Seq<Seq<char>>|
                times.len() == self@.devices.len() && outputs_view(out@) == (
                #[trigger] self@.handle_show(times)).outputs,
    {
        let mut out: Vec<Output> = Vec::new();
        push_output(&mut out, info_output("show"));
        let header = row(
            "Name",
            "Onboard",
            "Version",
            "Tailscale IP",
            "Temp",
            "App uptime",
            "Last update",
        );
        push_output(&mut out, info_output(header.as_str()));
        let ghost head = outputs_view(out@);
        let ghost mut times: Seq<Seq<char>> = Seq::empty();
        let mut i: usize = 0;
        assert(outputs_view(out@) =~= head + Seq::new(
            0,
            |k: int| info(device_row(self@.devices[k], times[k])),
        ));
        while i < self.devices.len()
            invariant
                i <= self.devices.len(),
                self.wf(),
                times.len() == i,
                outputs_view(out@) == head + Seq::new(
                    i as nat,
                    |k: int| info(device_row(self@.devices[k], times[k])),
                ),
            decreases self.devices.len() - i,
        {
            let d = &self.devices[i];
            proof {
                assert(self@.devices[i as int] == self.devices@[i as int]@);
                assert(self@.devices[i as int].ts <= MAX_TS);
            }
            let time = ts_str_local(d.ts);
            let shown = match &d.temperature {
                Some(t) => t.as_str(),
                None => NA,
            };
            let line = row(
                d.name.as_str(),
                onboard_str(d.onboard),
                version_str(&d.version),
                tailscale_ip_str(&d.tailscale_ip),
                shown,
                app_uptime_str(d.app_uptime).as_str(),
                time.as_str(),
            );
            let ghost before = outputs_view(out@);
            let ghost old_times = times;
            push_output(&mut out, info_output(line.as_str()));
            proof {
                times = times.push(time@);
                assert(line@ == device_row(self@.devices[i as int], times[i as int]));
                assert(outputs_view(out@) =~= head + Seq::new(
                    (i + 1) as nat,
                    |k: int| info(device_row(self@.devices[k], times[k])),
                )) by {
                    assert forall|k: int| 0 <= k < i implies times[k] == old_times[k] by {}
                }
            }
            i += 1;
        }
        proof {
            assert(outputs_view(out@) =~= self@.handle_show(times).outputs);
        }
        out
    }

    /// Handles a command line, given the second `ts` at which it is handled
    /// and, for a temperature, the value as it is shown. A line that cannot
    /// be read, or whose action is not of the vocabulary, is dropped with a
    /// warning; an action that the component does not know likewise.
    pub fn handle_line(&mut self, cmd: &str, ts: u64, shown: &Option<String>) -> (out: Vec<Output>)
        requires
            old(self).wf(),
            ts <= MAX_TS,
        ensures
            final(self).wf(),
            cmd_action_spec(cmd@) matches Err(w) ==> final(self)@ == old(self)@ && outputs_view(
                out@,
            ) == seq![warning(w)],
            cmd_action_spec(cmd@) matches Ok(pair) ==> match pair.1 {
                Action::Help => final(self)@ == old(self)@ && outputs_view(out@) == old(
                    self,
                )@.handle_help().outputs,
                Action::Show => final(self)@ == old(self)@ && exists|times: Seq<Seq<char>>|
                    times.len() == old(self)@.devices.len() && outputs_view(out@) == (
                    #[trigger] old(self)@.handle_show(times)).outputs,
                Action::Update => exists|time: Seq<char>|
                    {
                        &&& final(self)@ == (#[trigger] old(self)@.handle_update(
                            pair.0,
                            ts,
                            time,
                            option_view(*shown),
                        )).state
                        &&& outputs_view(out@) == old(self)@.handle_update(
                            pair.0,
                            ts,
                            time,
                            option_view(*shown),
                        ).outputs
                    },
                Action::Cmd => final(self)@ == old(self)@ && outputs_view(out@) == old(
                    self,
                )@.handle_cmd(pair.0).outputs,
                other => final(self)@ == old(self)@ && outputs_view(out@) == seq![
                    warning(MsgTemplate::UnsupportedAction.format_spec(other.name(), ""@, ""@)),
                ],
            },
    {
        match get_cmd_action(cmd) {
            Err(w) => one(warn_output(w.as_str())),
            Ok(pair) => match pair.1 {
                Action::Help => self.handle_cmd_help(),
                Action::Show => self.handle_cmd_show(),
                Action::Update => self.handle_cmd_update(&pair.0, ts, shown),
                Action::Cmd => self.handle_cmd(&pair.0),
                other => one(
                    warn_output(
                        MsgTemplate::UnsupportedAction.format(other.as_ref(), "", "").as_str(),
                    ),
                ),
            },
        }
    }
}

} // verus!
