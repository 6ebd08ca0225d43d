//! The log component: every component logs through it. It shows the lines in
//! its panel or prints them, and may pass them on to another instance.

use vstd::prelude::*;
use vstd::string::*;
use crate::arguments::Mode;
use crate::messages::{log_effect, Action, Effect, EffectView, Key, Level};
use crate::plugins::plugins_main::{
    handle_action_gui, handle_action_key_position, handle_gui, key_position, redraw_cmd,
};
use crate::text::{
    concat, join, join_spec, pad_left, pad_left_spec, split, split_spec, words_view,
};
use crate::utils::api::{LogData, LogRequest};
use crate::utils::common::{
    debug_option, debug_option_spec, debug_text, debug_words, level_str, level_str_spec,
    same_word, MsgTemplate,
};
use crate::utils::panel::{
    cells, cells_spec, drawing, drawing_spec, PanelDrawing, PanelDrawingView, PanelInfo,
    PanelType, Rect,
};
use crate::utils::time::{ts_str, MAX_TS};

verus! {

/// The name under which this component is addressed.
pub const MODULE: &'static str = "log";

/// The most lines that the panel keeps.
pub const LOG_CAPACITY: usize = 1000;

/// The mark of a warning in a log line.
pub const WARN_MARK: &'static str = "[W]";

/// The mark of an error in a log line.
pub const ERROR_MARK: &'static str = "[E]";

/// The command that asks for the panels to be drawn after the log changed.
pub const REDRAW: &'static str = "p plugins redraw log";

/// How a printed line is coloured.
#[derive(Clone, Copy, Debug, PartialEq, Eq, Structural)]
pub enum PrintStyle {
    Normal,
    Yellow,
    Red,
    RedOnYellow,
}

/// What the caller is to do for the log component.
#[derive(Debug)]
pub enum Output {
    /// Perform an effect on the bus.
    Bus(Effect),
    /// Send the log line to the instance at `dest`.
    Post { dest: String, name: String, ts: u64, plugin: String, level: String, msg: String },
    /// Print the line to the terminal.
    Print { line: String, style: PrintStyle },
}

/// An [`Output`] as a plain value.
pub enum OutputView {
    Bus(EffectView),
    Post {
        dest: Seq<char>,
        name: Seq<char>,
        ts: u64,
        plugin: Seq<char>,
        level: Seq<char>,
        msg: Seq<char>,
    },
    Print { line: Seq<char>, style: PrintStyle },
}

impl View for Output {
    type V = OutputView;

    open spec fn view(&self) -> OutputView {
        match *self {
            Output::Bus(e) => OutputView::Bus(e@),
            Output::Post { dest, name, ts, plugin, level, msg } => OutputView::Post {
                dest: dest@,
                name: name@,
                ts,
                plugin: plugin@,
                level: level@,
                msg: msg@,
            },
            Output::Print { line, style } => OutputView::Print { line: line@, style },
        }
    }
}

impl Output {
    /// The request that a `Post` stands for.
    pub fn request(name: &str, ts: u64, plugin: &str, level: &str, msg: &str) -> (out: LogRequest)
        ensures
            out.data.name@ == name@,
            out.data.ts == ts,
            out.data.plugin@ == plugin@,
            out.data.level@ == level@,
            out.data.msg@ == msg@,
    {
        LogRequest {
            data: LogData {
                name: String::from_str(name),
                ts,
                plugin: String::from_str(plugin),
                level: String::from_str(level),
                msg: String::from_str(msg),
            },
        }
    }
}

/// The views of a sequence of outputs.
pub open spec fn outputs_view(v: Seq<Output>) -> Seq<OutputView> {
    Seq::new(v.len(), |i: int| v[i]@)
}

/// The state of the log component.
#[derive(Debug)]
pub struct PluginUnit {
    mode: Mode,
    dest: Option<String>,
    logs: Vec<String>,
    panel_info: PanelInfo,
}

/// A [`PluginUnit`] as a plain value.
pub struct UnitView {
    pub mode: Mode,
    pub dest: Option<Seq<char>>,
    pub logs: Seq<Seq<char>>,
    pub panel_info: PanelInfo,
}

/// A state of the component together with what the caller is to do.
pub struct Outcome {
    pub state: UnitView,
    pub outputs: Seq<OutputView>,
}

/// The output that logs `msg` for information, in the name of the log.
pub open spec fn info(msg: Seq<char>) -> OutputView {
    OutputView::Bus(log_effect(Level::Info, MODULE@, msg))
}

/// The output that logs `msg` as a warning, in the name of the log.
pub open spec fn warning(msg: Seq<char>) -> OutputView {
    OutputView::Bus(log_effect(Level::Warn, MODULE@, msg))
}

/// A log line: the time, the component right aligned in 10 columns, the
/// letter of the level, and the message.
pub open spec fn log_line(time: Seq<char>, plugin: Seq<char>, level: Seq<char>, msg: Seq<char>) -> Seq<
    char,
> {
    time + " "@ + pad_left_spec(plugin, 10) + ": ["@ + level_str_spec(level) + "] "@ + msg
}

/// The log lines for a message: one for each line of the message.
pub open spec fn log_lines(time: Seq<char>, plugin: Seq<char>, level: Seq<char>, msg: Seq<char>) -> Seq<
    Seq<char>,
> {
    let lines = split_spec(msg, '\n');
    Seq::new(lines.len(), |i: int| log_line(time, plugin, level, lines[i]))
}

/// The colour in which a line of the given level is printed.
pub open spec fn print_style(level: Seq<char>) -> PrintStyle {
    if same_word(level, "info"@) {
        PrintStyle::Normal
    } else if same_word(level, "warn"@) {
        PrintStyle::Yellow
    } else if same_word(level, "error"@) {
        PrintStyle::Red
    } else {
        PrintStyle::RedOnYellow
    }
}

/// `logs` without its oldest line where it holds more than
/// [`LOG_CAPACITY`].
pub open spec fn capped(logs: Seq<Seq<char>>) -> Seq<Seq<char>> {
    if logs.len() > LOG_CAPACITY {
        logs.drop_first()
    } else {
        logs
    }
}

impl UnitView {
    /// The component when it starts.
    pub open spec fn start(mode: Mode) -> UnitView {
        UnitView {
            mode,
            dest: None,
            logs: Seq::empty(),
            panel_info: PanelInfo { panel_type: PanelType::Normal, x: 0, y: 0, w: 0, h: 0 },
        }
    }

    /// This state with the given outputs.
    pub open spec fn unchanged(self, outputs: Seq<OutputView>) -> Outcome {
        Outcome { state: self, outputs }
    }

    /// `show`: mode, destination and panel.
    pub open spec fn handle_show(self) -> Outcome {
        self.unchanged(
            seq![
                info("show"@),
                info("  Mode: "@ + self.mode.name()),
                info("  Dest: "@ + debug_option_spec(self.dest)),
                info("  Panel info: "@ + self.panel_info.debug_spec()),
            ],
        )
    }

    /// `help`: what can be asked of the log.
    pub open spec fn handle_help(self) -> Outcome {
        self.unchanged(
            seq![
                info("help"@),
                info("  dest <dest>"@),
                info("    dest: the destination IP to send log messages to"@),
            ],
        )
    }

    /// The request that passes the line on, where a destination is set.
    pub open spec fn posted(
        self,
        ts: u64,
        plugin: Seq<char>,
        sys_name: Seq<char>,
        level: Seq<char>,
        msg: Seq<char>,
    ) -> Seq<OutputView> {
        match self.dest {
            Some(dest) => seq![OutputView::Post { dest, name: sys_name, ts, plugin, level, msg }],
            None => Seq::empty(),
        }
    }

    /// `log <level> <message>`, sent by `plugin` at the second `ts`, whose
    /// time of day reads `time`. The line is passed on where a destination
    /// is set. With panels it is then appended to the log, a line for each of
    /// its lines, the oldest line is dropped where the log is full, and the
    /// panels are drawn; without panels it is printed in the colour of its
    /// level.
    pub open spec fn handle_log(
        self,
        time: Seq<char>,
        ts: u64,
        plugin: Seq<char>,
        sys_name: Seq<char>,
        parts: Seq<Seq<char>>,
    ) -> Outcome {
        if parts.len() < 5 {
            self.unchanged(seq![warning("Incomplete log command: "@ + debug_text(parts))])
        } else {
            let level = parts[3];
            let msg = parts[4];
            let posted = self.posted(ts, plugin, sys_name, level, msg);
            match self.mode {
                Mode::Gui => Outcome {
                    state: UnitView {
                        logs: capped(self.logs + log_lines(time, plugin, level, msg)),
                        ..self
                    },
                    outputs: posted + seq![
                        OutputView::Bus(EffectView::Send { origin: MODULE@, cmd: REDRAW@ }),
                    ],
                },
                Mode::Cli => self.unchanged(
                    posted + seq![
                        OutputView::Print {
                            line: log_line(time, plugin, level, msg),
                            style: print_style(level),
                        },
                    ],
                ),
            }
        }
    }

    /// `dest [<dest>]`: sets the instance that lines are passed on to, or,
    /// without a parameter, stops passing them on.
    pub open spec fn handle_dest(self, parts: Seq<Seq<char>>) -> Outcome {
        Outcome {
            state: UnitView {
                dest: if parts.len() > 3 {
                    Some(parts[3])
                } else {
                    None
                },
                ..self
            },
            outputs: Seq::empty(),
        }
    }

    /// `gui ...`: sets the panel and asks for it to be listed.
    pub open spec fn handle_gui(self, parts: Seq<Seq<char>>) -> Outcome {
        match handle_gui(MODULE@, parts) {
            Ok(pair) => Outcome {
                state: UnitView { panel_info: pair.0, ..self },
                outputs: seq![OutputView::Bus(pair.1)],
            },
            Err(w) => self.unchanged(seq![OutputView::Bus(w)]),
        }
    }

    /// `key <code>`: one key clears the log, eight keys move or resize the
    /// panel; all other keys do nothing.
    pub open spec fn handle_key(self, parts: Seq<Seq<char>>) -> Outcome {
        if parts.len() <= 3 {
            self.unchanged(
                seq![
                    warning(
                        MsgTemplate::MissingParameters.format_spec(
                            "<key>"@,
                            "key"@,
                            join_spec(parts, " "@),
                        ),
                    ),
                ],
            )
        } else {
            match Key::named(parts[3]) {
                None => self.unchanged(
                    seq![
                        warning(
                            MsgTemplate::InvalidParameters.format_spec(
                                "<key>"@,
                                "key"@,
                                join_spec(parts, " "@),
                            ),
                        ),
                    ],
                ),
                Some(key) => match key {
                    Key::AltC => Outcome {
                        state: UnitView { logs: Seq::empty(), ..self },
                        outputs: seq![
                            OutputView::Bus(EffectView::Send { origin: MODULE@, cmd: REDRAW@ }),
                        ],
                    },
                    Key::AltUp
                    | Key::AltDown
                    | Key::AltLeft
                    | Key::AltRight
                    | Key::AltW
                    | Key::AltS
                    | Key::AltA
                    | Key::AltD => {
                        let p = self.panel_info;
                        let place = key_position(key, p.x, p.y, p.w, p.h);
                        Outcome {
                            state: UnitView {
                                panel_info: PanelInfo {
                                    x: place.0,
                                    y: place.1,
                                    w: place.2,
                                    h: place.3,
                                    ..p
                                },
                                ..self
                            },
                            outputs: seq![
                                OutputView::Bus(
                                    EffectView::Send { origin: MODULE@, cmd: redraw_cmd() },
                                ),
                            ],
                        }
                    },
                    _ => self.unchanged(Seq::empty()),
                },
            }
        }
    }

    /// What the log does with a command: `time`, `ts` and `plugin` are those
    /// of the envelope, `sys_name` the name of this system.
    pub open spec fn step(
        self,
        action: Action,
        parts: Seq<Seq<char>>,
        time: Seq<char>,
        ts: u64,
        plugin: Seq<char>,
        sys_name: Seq<char>,
    ) -> Outcome {
        match action {
            Action::Help => self.handle_help(),
            Action::Show => self.handle_show(),
            Action::Log => self.handle_log(time, ts, plugin, sys_name, parts),
            Action::Gui => self.handle_gui(parts),
            Action::Dest => self.handle_dest(parts),
            Action::Key => self.handle_key(parts),
            _ => self.unchanged(
                seq![warning(MsgTemplate::UnsupportedAction.format_spec(action.name(), ""@, ""@))],
            ),
        }
    }

    /// How the panel of the log is drawn.
    pub open spec fn draw(self, area: Rect, active: bool) -> PanelDrawingView {
        drawing_spec(
            cells_spec(self.panel_info, area),
            MODULE@,
            self.logs,
            WARN_MARK@,
            ERROR_MARK@,
            active,
        )
    }
}

impl View for PluginUnit {
    type V = UnitView;

    closed spec fn view(&self) -> UnitView {
        UnitView {
            mode: self.mode,
            dest: match self.dest {
                Some(d) => Some(d@),
                None => None,
            },
            logs: words_view(self.logs@),
            panel_info: self.panel_info,
        }
    }
}

fn push_output(outputs: &mut Vec<Output>, o: Output)
    ensures
        outputs_view(final(outputs)@) == outputs_view(old(outputs)@).push(o@),
{
    outputs.push(o);
    assert(outputs_view(outputs@) =~= outputs_view(old(outputs)@).push(o@));
}

fn one(o: Output) -> (out: Vec<Output>)
    ensures
        outputs_view(out@) == seq![o@],
{
    let mut out: Vec<Output> = Vec::new();
    push_output(&mut out, o);
    assert(outputs_view(out@) =~= seq![o@]);
    out
}

fn none() -> (out: Vec<Output>)
    ensures
        outputs_view(out@) == Seq::<OutputView>::empty(),
{
    let out: Vec<Output> = Vec::new();
    assert(outputs_view(out@) =~= Seq::<OutputView>::empty());
    out
}

fn info_output(msg: &str) -> (out: Output)
    ensures
        out@ == info(msg@),
{
    Output::Bus(Effect::info(MODULE, msg))
}

fn warn_output(msg: &str) -> (out: Output)
    ensures
        out@ == warning(msg@),
{
    Output::Bus(Effect::warn(MODULE, msg))
}

/// Writes one log line (see [`log_line`]).
pub fn format_line(time: &str, plugin: &str, level: &str, msg: &str) -> (out: String)
    ensures
        out@ == log_line(time@, plugin@, level@, msg@),
{
    let mut out = String::from_str(time);
    out.append(" ");
    out.append(pad_left(plugin, 10).as_str());
    out.append(": [");
    out.append(level_str(level));
    out.append("] ");
    out.append(msg);
    out
}

fn style_of(level: &str) -> (out: PrintStyle)
    ensures
        out == print_style(level@),
{
    let letter = level_str(level);
    proof {
        reveal_strlit("I");
        reveal_strlit("W");
        reveal_strlit("E");
        reveal_strlit("?");
        assert("I"@[0] == 'I');
        assert("W"@[0] == 'W');
        assert("E"@[0] == 'E');
        assert("?"@[0] == '?');
    }
    if letter.eq("I") {
        PrintStyle::Normal
    } else if letter.eq("W") {
        PrintStyle::Yellow
    } else if letter.eq("E") {
        PrintStyle::Red
    } else {
        PrintStyle::RedOnYellow
    }
}

impl PluginUnit {
    /// The log component, with an empty log and no destination.
    pub fn new(mode: Mode) -> (out: PluginUnit)
        ensures
            out@ == UnitView::start(mode),
    {
        let out = PluginUnit {
            mode,
            dest: None,
            logs: Vec::new(),
            panel_info: PanelInfo::new(PanelType::Normal),
        };
        assert(out@.logs =~= Seq::empty());
        out
    }

    /// The name of the component.
    pub fn name(&self) -> (out: &'static str)
        ensures
            out@ == MODULE@,
    {
        MODULE
    }

    /// The panel of the log.
    pub fn panel_info(&self) -> (out: PanelInfo)
        ensures
            out == self@.panel_info,
    {
        self.panel_info
    }

    /// The lines that the panel shows.
    pub fn logs(&self) -> (out: &Vec<String>)
        ensures
            words_view(out@) == self@.logs,
    {
        &self.logs
    }

    fn handle_action_show(&self) -> (out: Vec<Output>)
        ensures
            outputs_view(out@) == self@.handle_show().outputs,
    {
        let mut out: Vec<Output> = Vec::new();
        push_output(&mut out, info_output("show"));
        push_output(&mut out, info_output(concat("  Mode: ", self.mode.as_ref()).as_str()));
        push_output(
            &mut out,
            info_output(concat("  Dest: ", debug_option(&self.dest).as_str()).as_str()),
        );
        push_output(
            &mut out,
            info_output(concat("  Panel info: ", self.panel_info.debug_string().as_str()).as_str()),
        );
        assert(outputs_view(out@) =~= self@.handle_show().outputs);
        out
    }

    fn handle_action_help(&self) -> (out: Vec<Output>)
        ensures
            outputs_view(out@) == self@.handle_help().outputs,
    {
        let mut out: Vec<Output> = Vec::new();
        push_output(&mut out, info_output("help"));
        push_output(&mut out, info_output("  dest <dest>"));
        push_output(
            &mut out,
            info_output("    dest: the destination IP to send log messages to"),
        );
        assert(outputs_view(out@) =~= self@.handle_help().outputs);
        out
    }

    /// Handles `log <level> <message>`, given the time of day of the
    /// envelope as text (see [`UnitView::handle_log`]).
    pub fn handle_action_log_at(
        &mut self,
        time: &str,
        ts: u64,
        plugin: &str,
        sys_name: &str,
        cmd_parts: &Vec<String>,
    ) -> (out: Vec<Output>)
        ensures
            final(self)@ == old(self)@.handle_log(
                time@,
                ts,
                plugin@,
                sys_name@,
                words_view(cmd_parts@),
            ).state,
            outputs_view(out@) == old(self)@.handle_log(
                time@,
                ts,
                plugin@,
                sys_name@,
                words_view(cmd_parts@),
            ).outputs,
    {
        if cmd_parts.len() < 5 {
            return one(
                warn_output(
                    concat("Incomplete log command: ", debug_words(cmd_parts).as_str()).as_str(),
                ),
            );
        }
        let level = cmd_parts[3].as_str();
        let msg = cmd_parts[4].as_str();
        let mut out: Vec<Output> = Vec::new();
        match &self.dest {
            Some(dest) => {
                push_output(
                    &mut out,
                    Output::Post {
                        dest: dest.clone(),
                        name: String::from_str(sys_name),
                        ts,
                        plugin: String::from_str(plugin),
                        level: String::from_str(level),
                        msg: String::from_str(msg),
                    },
                );
            },
            None => {},
        }
        let ghost posted = old(self)@.posted(ts, plugin@, sys_name@, level@, msg@);
        assert(outputs_view(out@) =~= posted);
        match self.mode {
            Mode::Gui => {
                let lines = split(msg, '\n');
                let ghost all = log_lines(time@, plugin@, level@, msg@);
                let mut i: usize = 0;
                assert(words_view(self.logs@) =~= old(self)@.logs + all.take(0));
                while i < lines.len()
                    invariant
                        i <= lines.len(),
                        words_view(lines@) == split_spec(msg@, '\n'),
                        all == log_lines(time@, plugin@, level@, msg@),
                        words_view(self.logs@) == old(self)@.logs + all.take(i as int),
                        self.mode == old(self).mode,
                        self.dest == old(self).dest,
                        self.panel_info == old(self).panel_info,
                    decreases lines.len() - i,
                {
                    let ghost before = words_view(self.logs@);
                    let line = format_line(time, plugin, level, lines[i].as_str());
                    proof {
                        assert(words_view(lines@)[i as int] == lines@[i as int]@);
                        assert(all[i as int] == line@);
                    }
                    self.logs.push(line);
                    proof {
                        assert(words_view(self.logs@) =~= before.push(all[i as int]));
                        assert(all.take(i + 1) =~= all.take(i as int).push(all[i as int]));
                        assert(words_view(self.logs@) =~= old(self)@.logs + all.take(i + 1));
                    }
                    i += 1;
                }
                assert(all.take(lines.len() as int) == all);
                if self.logs.len() > LOG_CAPACITY {
                    let ghost before = words_view(self.logs@);
                    self.logs.remove(0);
                    assert(words_view(self.logs@) =~= before.drop_first());
                }
                push_output(&mut out, Output::Bus(Effect::cmd(MODULE, REDRAW)));
                assert(outputs_view(out@) =~= posted + seq![
                    OutputView::Bus(EffectView::Send { origin: MODULE@, cmd: REDRAW@ }),
                ]);
            },
            Mode::Cli => {
                let line = format_line(time, plugin, level, msg);
                push_output(&mut out, Output::Print { line, style: style_of(level) });
                assert(outputs_view(out@) =~= posted + seq![
                    OutputView::Print {
                        line: log_line(time@, plugin@, level@, msg@),
                        style: print_style(level@),
                    },
                ]);
            },
        }
        out
    }

    fn handle_action_dest(&mut self, cmd_parts: &Vec<String>)
        ensures
            final(self)@ == old(self)@.handle_dest(words_view(cmd_parts@)).state,
    {
        if cmd_parts.len() > 3 {
            self.dest = Some(cmd_parts[3].clone());
        } else {
            self.dest = None;
        }
    }

    fn handle_action_key(&mut self, cmd_parts: &Vec<String>) -> (out: Vec<Output>)
        ensures
            final(self)@ == old(self)@.handle_key(words_view(cmd_parts@)).state,
            outputs_view(out@) == old(self)@.handle_key(words_view(cmd_parts@)).outputs,
    {
        if cmd_parts.len() <= 3 {
            let line = join(cmd_parts, " ");
            return one(
                warn_output(
                    MsgTemplate::MissingParameters.format("<key>", "key", line.as_str()).as_str(),
                ),
            );
        }
        match Key::parse(cmd_parts[3].as_str()) {
            None => {
                let line = join(cmd_parts, " ");
                one(
                    warn_output(
                        MsgTemplate::InvalidParameters.format(
                            "<key>",
                            "key",
                            line.as_str(),
                        ).as_str(),
                    ),
                )
            },
            Some(key) => match key {
                Key::AltC => {
                    self.logs = Vec::new();
                    assert(words_view(self.logs@) =~= Seq::empty());
                    one(Output::Bus(Effect::cmd(MODULE, REDRAW)))
                },
                Key::AltUp
                | Key::AltDown
                | Key::AltLeft
                | Key::AltRight
                | Key::AltW
                | Key::AltS
                | Key::AltA
                | Key::AltD => {
                    let p = self.panel_info;
                    let moved = handle_action_key_position(MODULE, key, p.x, p.y, p.w, p.h);
                    let place = moved.0;
                    self.panel_info = PanelInfo {
                        panel_type: p.panel_type,
                        x: place.0,
                        y: place.1,
                        w: place.2,
                        h: place.3,
                    };
                    one(Output::Bus(moved.1))
                },
                _ => none(),
            },
        }
    }

    fn handle_action_gui(&mut self, cmd_parts: &Vec<String>) -> (out: Vec<Output>)
        ensures
            final(self)@ == old(self)@.handle_gui(words_view(cmd_parts@)).state,
            outputs_view(out@) == old(self)@.handle_gui(words_view(cmd_parts@)).outputs,
    {
        match handle_action_gui(MODULE, cmd_parts) {
            Ok(pair) => {
                self.panel_info = pair.0;
                one(Output::Bus(pair.1))
            },
            Err(w) => one(Output::Bus(w)),
        }
    }

    /// Handles a command, given the time of day of its envelope as text (see
    /// [`UnitView::step`]).
    pub fn handle_action_at(
        &mut self,
        action: Action,
        cmd_parts: &Vec<String>,
        time: &str,
        ts: u64,
        plugin: &str,
        sys_name: &str,
    ) -> (out: Vec<Output>)
        ensures
            final(self)@ == old(self)@.step(
                action,
                words_view(cmd_parts@),
                time@,
                ts,
                plugin@,
                sys_name@,
            ).state,
            outputs_view(out@) == old(self)@.step(
                action,
                words_view(cmd_parts@),
                time@,
                ts,
                plugin@,
                sys_name@,
            ).outputs,
    {
        match action {
            Action::Help => self.handle_action_help(),
            Action::Show => self.handle_action_show(),
            Action::Log => self.handle_action_log_at(time, ts, plugin, sys_name, cmd_parts),
            Action::Gui => self.handle_action_gui(cmd_parts),
            Action::Dest => {
                self.handle_action_dest(cmd_parts);
                none()
            },
            Action::Key => self.handle_action_key(cmd_parts),
            _ => one(
                warn_output(
                    MsgTemplate::UnsupportedAction.format(action.as_ref(), "", "").as_str(),
                ),
            ),
        }
    }

    /// Handles a command that came in an envelope sent by `plugin` at the
    /// second `ts`. The time of day in the log lines is that of `ts` in the
    /// time zone of this machine; all else is as [`UnitView::step`] says.
    pub fn handle_action(
        &mut self,
        action: Action,
        cmd_parts: &Vec<String>,
        ts: u64,
        plugin: &str,
        sys_name: &str,
    ) -> (out: Vec<Output>)
        requires
            ts <= MAX_TS,
        ensures
            exists|time: Seq<char>|
                {
                    &&& final(self)@ == (#[trigger] old(self)@.step(
                        action,
                        words_view(cmd_parts@),
                        time,
                        ts,
                        plugin@,
                        sys_name@,
                    )).state
                    &&& outputs_view(out@) == old(self)@.step(
                        action,
                        words_view(cmd_parts@),
                        time,
                        ts,
                        plugin@,
                        sys_name@,
                    ).outputs
                },
    {
        let time = ts_str(ts);
        self.handle_action_at(action, cmd_parts, time.as_str(), ts, plugin, sys_name)
    }

    /// Says how the panel of the log is drawn in a terminal that covers
    /// `area`.
    pub fn draw(&self, area: Rect, active: bool) -> (out: PanelDrawing)
        ensures
            out@ == self@.draw(area, active),
    {
        drawing(cells(&self.panel_info, area), MODULE, &self.logs, WARN_MARK, ERROR_MARK, active)
    }
}

} // verus!
