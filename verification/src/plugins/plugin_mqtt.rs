//! The bridge to the MQTT broker: what instances publish about themselves
//! comes in here, and goes out from here.

use vstd::prelude::*;
use vstd::string::*;
use crate::arguments::Mode;
use crate::messages::{log_effect, Action, DeviceKey, Effect, EffectView, Key, Level};
use crate::plugins::plugins_main::{
    handle_action_gui, handle_action_key_position, handle_gui, key_position, redraw_cmd,
};
use crate::text::{chars_of, concat, join, join_spec, string_of, words_view};
use crate::utils::common::{level_to_str, level_to_str_spec, MsgTemplate};
use crate::utils::panel::{
    cells, cells_spec, drawing, drawing_spec, PanelDrawing, PanelDrawingView, PanelInfo,
    PanelType, Rect,
};

verus! {

/// The name under which this component is addressed.
pub const MODULE: &'static str = "mqtt";

/// The broker.
pub const BROKER: &'static str = "broker.emqx.io";

/// The port of the broker.
pub const BROKER_PORT: u16 = 1883;

/// Seconds between two signs of life.
pub const MQTT_KEEP_ALIVE: u64 = 300;

/// Seconds before a lost connection is made anew.
pub const RESTART_DELAY: u64 = 60;

/// The first level of every topic.
pub const TOPIC_PREFIX: &'static str = "tln";

/// The most lines that the panel keeps.
pub const MAX_OUTPUT_LEN: usize = 300;

/// The command that asks for the panels to be drawn after the panel was
/// cleared.
pub const REDRAW: &'static str = "p plugins redraw mqtt";

/// What the caller is to do for the bridge.
#[derive(Debug)]
pub enum Output {
    /// Perform an effect on the bus.
    Bus(Effect),
    /// Connect to the broker as `client_id`, with a last will that
    /// publishes `0` on `will_topic`; subscribe to `subscribe`; publish `1`
    /// on `will_topic`; then listen.
    Connect { client_id: String, will_topic: String, subscribe: String },
    /// Publish `payload` on `topic`, then call [`PluginUnit::published`].
    Publish { topic: String, retain: bool, payload: String },
}

/// An [`Output`] as a plain value.
pub enum OutputView {
    Bus(EffectView),
    Connect { client_id: Seq<char>, will_topic: Seq<char>, subscribe: Seq<char> },
    Publish { topic: Seq<char>, retain: bool, payload: Seq<char> },
}

impl View for Output {
    type V = OutputView;

    open spec fn view(&self) -> OutputView {
        match *self {
            Output::Bus(e) => OutputView::Bus(e@),
            Output::Connect { client_id, will_topic, subscribe } => OutputView::Connect {
                client_id: client_id@,
                will_topic: will_topic@,
                subscribe: subscribe@,
            },
            Output::Publish { topic, retain, payload } => OutputView::Publish {
                topic: topic@,
                retain,
                payload: payload@,
            },
        }
    }
}

/// The views of a sequence of outputs.
pub open spec fn outputs_view(v: Seq<Output>) -> Seq<OutputView> {
    Seq::new(v.len(), |i: int| v[i]@)
}

/// The topic on which the instance `name` publishes its attribute `key`.
pub open spec fn topic_spec(name: Seq<char>, key: Seq<char>) -> Seq<char> {
    "tln/"@ + name + "/"@ + key
}

/// Whether `s` is one level of a topic: not empty, and without a slash.
pub open spec fn is_level(s: Seq<char>) -> bool {
    s.len() > 0 && !s.contains('/')
}

/// Whether `topic` is the topic of the attribute `key` of the instance
/// `name`.
pub open spec fn is_topic(topic: Seq<char>, name: Seq<char>, key: Seq<char>) -> bool {
    is_level(name) && is_level(key) && topic == topic_spec(name, key)
}

/// Name and key of a topic of the form `tln/<name>/<key>`; `None` for any
/// other topic.
pub open spec fn parse_topic_spec(topic: Seq<char>) -> Option<(Seq<char>, Seq<char>)> {
    if exists|name: Seq<char>, key: Seq<char>| is_topic(topic, name, key) {
        Some(choose|name: Seq<char>, key: Seq<char>| is_topic(topic, name, key))
    } else {
        None
    }
}

/// Topics of that form are read in one way only.
pub proof fn lemma_topic_unique(a: Seq<char>, b: Seq<char>, c: Seq<char>, d: Seq<char>)
    requires
        is_level(a) && is_level(b) && is_level(c) && is_level(d),
        topic_spec(a, b) == topic_spec(c, d),
    ensures
        a == c && b == d,
{
    reveal_strlit("tln/");
    reveal_strlit("/");
    let t = topic_spec(a, b);
    let u = topic_spec(c, d);
    assert("tln/"@.len() == 4);
    assert("/"@.len() == 1);
    assert("/"@[0] == '/');
    assert(t.len() == 4 + a.len() + 1 + b.len());
    assert(u.len() == 4 + c.len() + 1 + d.len());
    if a.len() < c.len() {
        assert(t[4 + a.len() as int] == '/');
        assert(u[4 + a.len() as int] == c[a.len() as int]);
        assert(c.contains(c[a.len() as int]));
    } else if c.len() < a.len() {
        assert(u[4 + c.len() as int] == '/');
        assert(t[4 + c.len() as int] == a[c.len() as int]);
        assert(a.contains(a[c.len() as int]));
    } else {
        assert forall|i: int| 0 <= i < a.len() implies a[i] == c[i] by {
            assert(t[4 + i] == a[i]);
            assert(u[4 + i] == c[i]);
        }
        assert(a =~= c);
        assert forall|i: int| 0 <= i < b.len() implies b[i] == d[i] by {
            assert(t[4 + a.len() + 1 + i] == b[i]);
            assert(u[4 + c.len() + 1 + i] == d[i]);
        }
        assert(b =~= d);
    }
}

/// A line for the panel or the log: what was published, by whom.
pub open spec fn pub_line(mark: Seq<char>, key: Seq<char>, name: Seq<char>, payload: Seq<char>) -> Seq<
    char,
> {
    mark + " pub:: "@ + key + " "@ + name + " "@ + payload
}

/// The effect that reports `msg`. With panels, it goes into the panel of
/// the bridge, with the time as text and the letter of the level; without,
/// it is logged at that level.
pub open spec fn output_push_spec(mode: Mode, level: Level, time: Seq<char>, msg: Seq<char>) -> EffectView {
    match mode {
        Mode::Gui => EffectView::Send {
            origin: MODULE@,
            cmd: "p mqtt output_push '"@ + time + " ["@ + level_to_str_spec(level) + "] "@ + msg
                + "'"@,
        },
        Mode::Cli => log_effect(
            match level {
                Level::Info => Level::Info,
                Level::Warn => Level::Warn,
                _ => Level::Error,
            },
            MODULE@,
            msg,
        ),
    }
}

/// What an incoming message leads to: where its topic has the form
/// `tln/<name>/<key>`, it is reported, and, where the key is one of the
/// attributes of a device, the device registry is told.
pub open spec fn incoming_spec(mode: Mode, time: Seq<char>, topic: Seq<char>, payload: Seq<char>) -> Seq<
    EffectView,
> {
    match parse_topic_spec(topic) {
        None => Seq::empty(),
        Some((name, key)) => if DeviceKey::named(key) is Some {
            seq![
                output_push_spec(mode, Level::Info, time, pub_line("📩"@, key, name, payload)),
                EffectView::Send {
                    origin: MODULE@,
                    cmd: "p devices update "@ + key + " "@ + name + " "@ + payload,
                },
            ]
        } else {
            seq![output_push_spec(mode, Level::Error, time, pub_line("📩"@, key, name, payload))]
        },
    }
}

/// The bridge.
#[derive(Debug)]
pub struct PluginUnit {
    mode: Mode,
    connected: bool,
    logs: Vec<String>,
    panel_info: PanelInfo,
}

/// A [`PluginUnit`] as a plain value.
pub struct UnitView {
    pub mode: Mode,
    pub connected: bool,
    pub logs: Seq<Seq<char>>,
    pub panel_info: PanelInfo,
}

/// A state of the bridge together with what the caller is to do.
pub struct Outcome {
    pub state: UnitView,
    pub outputs: Seq<OutputView>,
}

/// The output that logs `msg` for information, in the name of the bridge.
pub open spec fn info(msg: Seq<char>) -> OutputView {
    OutputView::Bus(log_effect(Level::Info, MODULE@, msg))
}

/// The output that logs `msg` as a warning, in the name of the bridge.
pub open spec fn warning(msg: Seq<char>) -> OutputView {
    OutputView::Bus(log_effect(Level::Warn, MODULE@, msg))
}

/// The output that puts the command `cmd` on the bus.
pub open spec fn send(cmd: Seq<char>) -> OutputView {
    OutputView::Bus(EffectView::Send { origin: MODULE@, cmd })
}

/// The most recent lines of `logs`, at most [`MAX_OUTPUT_LEN`] of them.
pub open spec fn trimmed(logs: Seq<Seq<char>>) -> Seq<Seq<char>> {
    if logs.len() > MAX_OUTPUT_LEN {
        logs.skip(logs.len() - MAX_OUTPUT_LEN)
    } else {
        logs
    }
}

impl UnitView {
    /// The bridge when it starts: not connected.
    pub open spec fn start(mode: Mode) -> UnitView {
        UnitView {
            mode,
            connected: false,
            logs: Seq::empty(),
            panel_info: PanelInfo { panel_type: PanelType::Normal, x: 0, y: 0, w: 0, h: 0 },
        }
    }

    /// This state with the given outputs.
    pub open spec fn unchanged(self, outputs: Seq<OutputView>) -> Outcome {
        Outcome { state: self, outputs }
    }

    /// `restart`: the connection is made anew, in five steps of which four
    /// are announced here.
    pub open spec fn handle_restart(self, sys_name: Seq<char>) -> Outcome {
        Outcome {
            state: UnitView { connected: true, ..self },
            outputs: seq![
                info("restart"@),
                info("1/5: Initialization"@),
                info("2/5: Establish connection"@),
                info("3/5: Subscribe"@),
                info("4/5: Publish"@),
                OutputView::Connect {
                    client_id: sys_name,
                    will_topic: topic_spec(sys_name, "onboard"@),
                    subscribe: "tln/#"@,
                },
            ],
        }
    }

    /// `publish <retain> <key> <payload>`: the attribute `key` of this
    /// system is published, where the bridge is connected.
    pub open spec fn handle_publish(self, sys_name: Seq<char>, parts: Seq<Seq<char>>) -> Outcome {
        if parts.len() < 6 {
            self.unchanged(
                seq![
                    warning(
                        MsgTemplate::MissingParameters.format_spec(
                            "<retain> <key> <payload>"@,
                            "publish"@,
                            join_spec(parts, " "@),
                        ),
                    ),
                ],
            )
        } else if self.connected && parse_topic_spec(topic_spec(sys_name, parts[4])) is Some {
            self.unchanged(
                seq![
                    OutputView::Publish {
                        topic: topic_spec(sys_name, parts[4]),
                        retain: parts[3] == "true"@,
                        payload: parts[5],
                    },
                ],
            )
        } else {
            self.unchanged(Seq::empty())
        }
    }

    /// `output_push <line>`: the line is appended to the panel, lines older
    /// than the last [`MAX_OUTPUT_LEN`] are dropped, and the panels are
    /// drawn.
    pub open spec fn handle_output_push(self, parts: Seq<Seq<char>>) -> Outcome {
        if parts.len() <= 3 {
            self.unchanged(
                seq![
                    warning(
                        MsgTemplate::MissingParameters.format_spec(
                            "<output>"@,
                            "output_update"@,
                            join_spec(parts, " "@),
                        ),
                    ),
                ],
            )
        } else {
            Outcome {
                state: UnitView { logs: trimmed(self.logs.push(parts[3])), ..self },
                outputs: seq![send(redraw_cmd())],
            }
        }
    }

    /// `key <code>`: one key clears the panel, eight keys move or resize it.
    pub open spec fn handle_key(self, parts: Seq<Seq<char>>) -> Outcome {
        if parts.len() <= 3 {
            self.unchanged(
                seq![
                    warning(
                        MsgTemplate::MissingParameters.format_spec(
                            "<key>"@,
                            "key"@,
                            join_spec(parts, " "@),
                        ),
                    ),
                ],
            )
        } else {
            match Key::named(parts[3]) {
                None => self.unchanged(
                    seq![
                        warning(
                            MsgTemplate::InvalidParameters.format_spec(
                                "<key>"@,
                                "key"@,
                                join_spec(parts, " "@),
                            ),
                        ),
                    ],
                ),
                Some(key) => match key {
                    Key::AltC => Outcome {
                        state: UnitView { logs: Seq::empty(), ..self },
                        outputs: seq![send(REDRAW@)],
                    },
                    Key::AltUp
                    | Key::AltDown
                    | Key::AltLeft
                    | Key::AltRight
                    | Key::AltW
                    | Key::AltS
                    | Key::AltA
                    | Key::AltD => {
                        let p = self.panel_info;
                        let place = key_position(key, p.x, p.y, p.w, p.h);
                        Outcome {
                            state: UnitView {
                                panel_info: PanelInfo {
                                    x: place.0,
                                    y: place.1,
                                    w: place.2,
                                    h: place.3,
                                    ..p
                                },
                                ..self
                            },
                            outputs: seq![send(redraw_cmd())],
                        }
                    },
                    _ => self.unchanged(Seq::empty()),
                },
            }
        }
    }

    /// What the bridge does with a command; `sys_name` is the name of this
    /// system.
    pub open spec fn step(self, action: Action, parts: Seq<Seq<char>>, sys_name: Seq<char>) -> Outcome {
        match action {
            Action::Help => self.unchanged(seq![info("help"@)]),
            Action::Show => self.unchanged(
                seq![
                    info("show"@),
                    info("  Mode: "@ + self.mode.name()),
                    info(
                        "  MQTT Client connected: "@ + (if self.connected {
                            "true"@
                        } else {
                            "false"@
                        }),
                    ),
                ],
            ),
            Action::Gui => match handle_gui(MODULE@, parts) {
                Ok(pair) => Outcome {
                    state: UnitView { panel_info: pair.0, ..self },
                    outputs: seq![OutputView::Bus(pair.1)],
                },
                Err(w) => self.unchanged(seq![OutputView::Bus(w)]),
            },
            Action::Restart => self.handle_restart(sys_name),
            Action::Disconnected => Outcome {
                state: UnitView { connected: false, ..self },
                outputs: seq![info("disconnected"@)],
            },
            Action::Publish => self.handle_publish(sys_name, parts),
            Action::Key => self.handle_key(parts),
            Action::OutputPush => self.handle_output_push(parts),
            _ => self.unchanged(
                seq![warning(MsgTemplate::UnsupportedAction.format_spec(action.name(), ""@, ""@))],
            ),
        }
    }

    /// How the panel of the bridge is drawn.
    pub open spec fn draw(self, area: Rect, active: bool) -> PanelDrawingView {
        drawing_spec(cells_spec(self.panel_info, area), MODULE@, self.logs, "[W]"@, "[E]"@, active)
    }
}

impl View for PluginUnit {
    type V = UnitView;

    closed spec fn view(&self) -> UnitView {
        UnitView {
            mode: self.mode,
            connected: self.connected,
            logs: words_view(self.logs@),
            panel_info: self.panel_info,
        }
    }
}

fn push_output(outputs: &mut Vec<Output>, o: Output)
    ensures
        outputs_view(final(outputs)@) == outputs_view(old(outputs)@).push(o@),
{
    outputs.push(o);
    assert(outputs_view(outputs@) =~= outputs_view(old(outputs)@).push(o@));
}

fn one(o: Output) -> (out: Vec<Output>)
    ensures
        outputs_view(out@) == seq![o@],
{
    let mut out: Vec<Output> = Vec::new();
    push_output(&mut out, o);
    assert(outputs_view(out@) =~= seq![o@]);
    out
}

fn none() -> (out: Vec<Output>)
    ensures
        outputs_view(out@) == Seq::<OutputView>::empty(),
{
    let out: Vec<Output> = Vec::new();
    assert(outputs_view(out@) =~= Seq::<OutputView>::empty());
    out
}

fn info_output(msg: &str) -> (out: Output)
    ensures
        out@ == info(msg@),
{
    Output::Bus(Effect::info(MODULE, msg))
}

fn warn_output(msg: &str) -> (out: Output)
    ensures
        out@ == warning(msg@),
{
    Output::Bus(Effect::warn(MODULE, msg))
}

fn send_output(cmd: &str) -> (out: Output)
    ensures
        out@ == send(cmd@),
{
    Output::Bus(Effect::cmd(MODULE, cmd))
}

/// The topic on which the instance `name` publishes its attribute `key`.
pub fn topic(name: &str, key: &str) -> (out: String)
    ensures
        out@ == topic_spec(name@, key@),
{
    let mut out = String::from_str("tln/");
    out.append(name);
    out.append("/");
    out.append(key);
    out
}

fn find_slash(v: &Vec<char>, from: usize) -> (out: usize)
    requires
        from <= v.len(),
    ensures
        from <= out <= v.len(),
        forall|i: int| from <= i < out ==> v@[i] != '/',
        out < v.len() ==> v@[out as int] == '/',
{
    let mut i: usize = from;
    while i < v.len() && v[i] != '/'
        invariant
            from <= i <= v.len(),
            forall|k: int| from <= k < i ==> v@[k] != '/',
        decreases v.len() - i,
    {
        i += 1;
    }
    i
}

/// Reads name and key from a topic (see [`parse_topic_spec`]).
pub fn parse_topic(topic: &str) -> (out: Option<(String, String)>)
    ensures
        out is Some == parse_topic_spec(topic@) is Some,
        out matches Some(pair) ==> parse_topic_spec(topic@) == Some((pair.0@, pair.1@)),
{
    let v = chars_of(topic);
    proof {
        reveal_strlit("tln/");
        reveal_strlit("/");
        assert("tln/"@.len() == 4);
        assert("/"@.len() == 1);
        assert("tln/"@[0] == 't' && "tln/"@[1] == 'l' && "tln/"@[2] == 'n' && "tln/"@[3] == '/');
        assert("/"@[0] == '/');
    }
    let ghost t = topic@;
    if v.len() < 4 || v[0] != 't' || v[1] != 'l' || v[2] != 'n' || v[3] != '/' {
        proof {
            assert forall|name: Seq<char>, key: Seq<char>| !is_topic(t, name, key) by {
                let u = topic_spec(name, key);
                assert(u.len() >= 4);
                assert(u[0] == 't' && u[1] == 'l' && u[2] == 'n' && u[3] == '/');
            }
        }
        return None;
    }
    let mid = find_slash(&v, 4);
    if mid == 4 || mid >= v.len() {
        proof {
            assert forall|name: Seq<char>, key: Seq<char>| !is_topic(t, name, key) by {
                let u = topic_spec(name, key);
                assert(u.len() == 4 + name.len() + 1 + key.len());
                assert(u[4 + name.len() as int] == '/');
                if is_topic(t, name, key) {
                    if mid == 4 {
                        if mid < v.len() {
                            assert(u[4] == name[0]);
                            assert(name.contains(name[0]));
                        }
                    } else {
                        assert(t[4 + name.len() as int] == '/');
                    }
                }
            }
        }
        return None;
    }
    let end = find_slash(&v, mid + 1);
    if end < v.len() || mid + 1 == v.len() {
        proof {
            assert forall|name: Seq<char>, key: Seq<char>| !is_topic(t, name, key) by {
                let u = topic_spec(name, key);
                assert(u.len() == 4 + name.len() + 1 + key.len());
                assert(u[4 + name.len() as int] == '/');
                if is_topic(t, name, key) {
                    if 4 + name.len() < mid {
                    } else if 4 + name.len() > mid {
                        assert(u[mid as int] == name[mid - 4]);
                        assert(name.contains(name[mid - 4]));
                    } else {
                        if end < v.len() {
                            assert(u[end as int] == key[end - mid - 1]);
                            assert(key.contains(key[end - mid - 1]));
                        }
                    }
                }
            }
        }
        return None;
    }
    let name = string_of(&v, 4, mid);
    let key = string_of(&v, mid + 1, v.len());
    proof {
        assert(t =~= topic_spec(name@, key@));
        assert(!name@.contains('/')) by {
            if name@.contains('/') {
                let i = choose|i: int| 0 <= i < name@.len() && name@[i] == '/';
                assert(v@[4 + i] == '/');
            }
        }
        assert(!key@.contains('/')) by {
            if key@.contains('/') {
                let i = choose|i: int| 0 <= i < key@.len() && key@[i] == '/';
                assert(v@[mid + 1 + i] == '/');
            }
        }
        assert(is_topic(t, name@, key@));
        let pair = parse_topic_spec(t)->0;
        assert(is_topic(t, pair.0, pair.1));
        lemma_topic_unique(pair.0, pair.1, name@, key@);
    }
    Some((name, key))
}

/// Writes the line that reports what was published.
pub fn format_pub_line(mark: &str, key: &str, name: &str, payload: &str) -> (out: String)
    ensures
        out@ == pub_line(mark@, key@, name@, payload@),
{
    let mut out = String::from_str(mark);
    out.append(" pub:: ");
    out.append(key);
    out.append(" ");
    out.append(name);
    out.append(" ");
    out.append(payload);
    out
}

/// The effect that reports `msg` at `level`, given the time as text (see
/// [`output_push_spec`]).
pub fn output_push(mode: Mode, level: Level, time: &str, msg: &str) -> (out: Effect)
    ensures
        out@ == output_push_spec(mode, level, time@, msg@),
{
    match mode {
        Mode::Gui => {
            let mut text = String::from_str("p mqtt output_push '");
            text.append(time);
            text.append(" [");
            text.append(level_to_str(&level));
            text.append("] ");
            text.append(msg);
            text.append("'");
            Effect::cmd(MODULE, text.as_str())
        },
        Mode::Cli => match level {
            Level::Info => Effect::info(MODULE, msg),
            Level::Warn => Effect::warn(MODULE, msg),
            _ => Effect::error(MODULE, msg),
        },
    }
}

/// Says what an incoming message leads to, given the time as text (see
/// [`incoming_spec`]).
pub fn process_event_publish(mode: Mode, time: &str, topic: &str, payload: &str) -> (out: Vec<
    Effect,
>)
    ensures
        crate::messages::effects_view(out@) == incoming_spec(mode, time@, topic@, payload@),
{
    match parse_topic(topic) {
        None => crate::messages::no_effect(),
        Some(pair) => {
            let name = pair.0.as_str();
            let key = pair.1.as_str();
            let line = format_pub_line("📩", key, name, payload);
            let mut out: Vec<Effect> = Vec::new();
            if DeviceKey::parse(key).is_some() {
                crate::messages::push_effect(
                    &mut out,
                    output_push(mode, Level::Info, time, line.as_str()),
                );
                let mut text = String::from_str("p devices update ");
                text.append(key);
                text.append(" ");
                text.append(name);
                text.append(" ");
                text.append(payload);
                crate::messages::push_effect(&mut out, Effect::cmd(MODULE, text.as_str()));
            } else {
                crate::messages::push_effect(
                    &mut out,
                    output_push(mode, Level::Error, time, line.as_str()),
                );
            }
            assert(crate::messages::effects_view(out@) =~= incoming_spec(
                mode,
                time@,
                topic@,
                payload@,
            ));
            out
        },
    }
}

/// The effect that reports that the connection broke; `error` says how.
pub fn process_event_error(mode: Mode, time: &str, error: &str) -> (out: Effect)
    ensures
        out@ == output_push_spec(mode, Level::Error, time@, "❌ Event loop error: "@ + error@),
{
    output_push(mode, Level::Error, time, concat("❌ Event loop error: ", error).as_str())
}

impl PluginUnit {
    /// The bridge when it starts.
    pub fn new(mode: Mode) -> (out: PluginUnit)
        ensures
            out@ == UnitView::start(mode),
    {
        let out = PluginUnit {
            mode,
            connected: false,
            logs: Vec::new(),
            panel_info: PanelInfo::new(PanelType::Normal),
        };
        assert(out@.logs =~= Seq::empty());
        out
    }

    /// The panel of the bridge.
    pub fn panel_info(&self) -> (out: PanelInfo)
        ensures
            out == self@.panel_info,
    {
        self.panel_info
    }

    /// The lines that the panel shows.
    pub fn logs(&self) -> (out: &Vec<String>)
        ensures
            words_view(out@) == self@.logs,
    {
        &self.logs
    }

    /// After something was published, or could not be: what to report.
    /// `error` is `None` on success.
    pub fn published(&self, time: &str, topic: &str, payload: &str, error: &Option<String>) -> (out:
        Vec<Effect>)
        ensures
            crate::messages::effects_view(out@) == match parse_topic_spec(topic@) {
                None => Seq::empty(),
                Some((name, key)) => match *error {
                    Some(e) => seq![
                        log_effect(
                            Level::Warn,
                            MODULE@,
                            "Failed to publish topic (`"@ + topic@ + "`) payload (`"@ + payload@
                                + "`). Err: "@ + e@,
                        ),
                    ],
                    None => seq![
                        output_push_spec(
                            self@.mode,
                            Level::Info,
                            time@,
                            pub_line("📤"@, key, name, payload@),
                        ),
                    ],
                },
            },
    {
        match parse_topic(topic) {
            None => crate::messages::no_effect(),
            Some(pair) => match error {
                Some(e) => {
                    let mut text = String::from_str("Failed to publish topic (`");
                    text.append(topic);
                    text.append("`) payload (`");
                    text.append(payload);
                    text.append("`). Err: ");
                    text.append(e.as_str());
                    crate::messages::one_effect(Effect::warn(MODULE, text.as_str()))
                },
                None => {
                    let line = format_pub_line("📤", pair.1.as_str(), pair.0.as_str(), payload);
                    crate::messages::one_effect(
                        output_push(self.mode, Level::Info, time, line.as_str()),
                    )
                },
            },
        }
    }

    fn handle_action_restart(&mut self, sys_name: &str) -> (out: Vec<Output>)
        ensures
            final(self)@ == old(self)@.handle_restart(sys_name@).state,
            outputs_view(out@) == old(self)@.handle_restart(sys_name@).outputs,
    {
        self.connected = true;
        let mut out: Vec<Output> = Vec::new();
        push_output(&mut out, info_output("restart"));
        push_output(&mut out, info_output("1/5: Initialization"));
        push_output(&mut out, info_output("2/5: Establish connection"));
        push_output(&mut out, info_output("3/5: Subscribe"));
        push_output(&mut out, info_output("4/5: Publish"));
        push_output(
            &mut out,
            Output::Connect {
                client_id: String::from_str(sys_name),
                will_topic: topic(sys_name, "onboard"),
                subscribe: String::from_str("tln/#"),
            },
        );
        assert(outputs_view(out@) =~= old(self)@.handle_restart(sys_name@).outputs);
        out
    }

    fn handle_action_publish(&self, sys_name: &str, cmd_parts: &Vec<String>) -> (out: Vec<Output>)
        ensures
            outputs_view(out@) == self@.handle_publish(sys_name@, words_view(cmd_parts@)).outputs,
    {
        if cmd_parts.len() < 6 {
            let line = join(cmd_parts, " ");
            return one(
                warn_output(
                    MsgTemplate::MissingParameters.format(
                        "<retain> <key> <payload>",
                        "publish",
                        line.as_str(),
                    ).as_str(),
                ),
            );
        }
        let retain = cmd_parts[3].as_str().eq("true");
        let to = topic(sys_name, cmd_parts[4].as_str());
        if self.connected && parse_topic(to.as_str()).is_some() {
            one(Output::Publish { topic: to, retain, payload: cmd_parts[5].clone() })
        } else {
            none()
        }
    }

    fn handle_action_output_push(&mut self, cmd_parts: &Vec<String>) -> (out: Vec<Output>)
        ensures
            final(self)@ == old(self)@.handle_output_push(words_view(cmd_parts@)).state,
            outputs_view(out@) == old(self)@.handle_output_push(words_view(cmd_parts@)).outputs,
    {
        if cmd_parts.len() <= 3 {
            let line = join(cmd_parts, " ");
            return one(
                warn_output(
                    MsgTemplate::MissingParameters.format(
                        "<output>",
                        "output_update",
                        line.as_str(),
                    ).as_str(),
                ),
            );
        }
        self.logs.push(cmd_parts[3].clone());
        let len: usize = self.logs.len();
        if len > MAX_OUTPUT_LEN {
            let kept = self.logs.split_off(len - MAX_OUTPUT_LEN);
            self.logs = kept;
        }
        proof {
            let pushed = old(self)@.logs.push(words_view(cmd_parts@)[3]);
            assert(words_view(self.logs@) =~= trimmed(pushed));
        }
        one(send_output("p plugins redraw"))
    }

    fn handle_action_key(&mut self, cmd_parts: &Vec<String>) -> (out: Vec<Output>)
        ensures
            final(self)@ == old(self)@.handle_key(words_view(cmd_parts@)).state,
            outputs_view(out@) == old(self)@.handle_key(words_view(cmd_parts@)).outputs,
    {
        if cmd_parts.len() <= 3 {
            let line = join(cmd_parts, " ");
            return one(
                warn_output(
                    MsgTemplate::MissingParameters.format("<key>", "key", line.as_str()).as_str(),
                ),
            );
        }
        match Key::parse(cmd_parts[3].as_str()) {
            None => {
                let line = join(cmd_parts, " ");
                one(
                    warn_output(
                        MsgTemplate::InvalidParameters.format(
                            "<key>",
                            "key",
                            line.as_str(),
                        ).as_str(),
                    ),
                )
            },
            Some(key) => match key {
                Key::AltC => {
                    self.logs = Vec::new();
                    assert(words_view(self.logs@) =~= Seq::empty());
                    one(send_output(REDRAW))
                },
                Key::AltUp
                | Key::AltDown
                | Key::AltLeft
                | Key::AltRight
                | Key::AltW
                | Key::AltS
                | Key::AltA
                | Key::AltD => {
                    let p = self.panel_info;
                    let moved = handle_action_key_position(MODULE, key, p.x, p.y, p.w, p.h);
                    let place = moved.0;
                    self.panel_info = PanelInfo {
                        panel_type: p.panel_type,
                        x: place.0,
                        y: place.1,
                        w: place.2,
                        h: place.3,
                    };
                    one(Output::Bus(moved.1))
                },
                _ => none(),
            },
        }
    }

    /// Handles a command (see [`UnitView::step`]).
    pub fn handle_action(&mut self, action: Action, cmd_parts: &Vec<String>, sys_name: &str) -> (out:
        Vec<Output>)
        ensures
            final(self)@ == old(self)@.step(action, words_view(cmd_parts@), sys_name@).state,
            outputs_view(out@) == old(self)@.step(
                action,
                words_view(cmd_parts@),
                sys_name@,
            ).outputs,
    {
        match action {
            Action::Help => one(info_output("help")),
            Action::Show => {
                let mut out: Vec<Output> = Vec::new();
                push_output(&mut out, info_output("show"));
                push_output(&mut out, info_output(concat("  Mode: ", self.mode.as_ref()).as_str()));
                push_output(
                    &mut out,
                    info_output(
                        concat(
                            "  MQTT Client connected: ",
                            if self.connected {
                                "true"
                            } else {
                                "false"
                            },
                        ).as_str(),
                    ),
                );
                assert(outputs_view(out@) =~= old(self)@.step(
                    action,
                    words_view(cmd_parts@),
                    sys_name@,
                ).outputs);
                out
            },
            Action::Gui => match handle_action_gui(MODULE, cmd_parts) {
                Ok(pair) => {
                    self.panel_info = pair.0;
                    one(Output::Bus(pair.1))
                },
                Err(w) => one(Output::Bus(w)),
            },
            Action::Restart => self.handle_action_restart(sys_name),
            Action::Disconnected => {
                self.connected = false;
                one(info_output("disconnected"))
            },
            Action::Publish => self.handle_action_publish(sys_name, cmd_parts),
            Action::Key => self.handle_action_key(cmd_parts),
            Action::OutputPush => self.handle_action_output_push(cmd_parts),
            _ => one(
                warn_output(
                    MsgTemplate::UnsupportedAction.format(action.as_ref(), "", "").as_str(),
                ),
            ),
        }
    }

    /// Says how the panel of the bridge is drawn in a terminal that covers
    /// `area`.
    pub fn draw(&self, area: Rect, active: bool) -> (out: PanelDrawing)
        ensures
            out@ == self@.draw(area, active),
    {
        drawing(cells(&self.panel_info, area), MODULE, &self.logs, "[W]", "[E]", active)
    }
}

} // verus!
