//! The pinned command panel: it shows the input line at the bottom of the
//! terminal.

use vstd::prelude::*;
use vstd::string::*;
use crate::consts::COMMAND_ROWS;
use crate::messages::{
    effects_view, log_effect, one_effect, Action, Effect, EffectView, Level,
};
use crate::plugins::plugins_main::{handle_action_gui, handle_gui, redraw_cmd};
use crate::text::{concat, join, join_spec, len16, split, split_spec, str_len16, words_view};
use crate::utils::common::MsgTemplate;
use crate::utils::panel::{
    add_sat, panel_rect, panel_rect_spec, usable_height, Line, LineStyle, LineView,
    PanelDrawing, PanelDrawingView, PanelInfo, PanelType, Rect,
};

verus! {

/// The name under which this component is addressed.
pub const MODULE: &'static str = "command";

/// The command panel.
#[derive(Debug)]
pub struct PluginUnit {
    output: String,
    panel_info: PanelInfo,
}

/// A [`PluginUnit`] as a plain value.
pub struct UnitView {
    pub output: Seq<char>,
    pub panel_info: PanelInfo,
}

/// A state of the component together with the effects of reaching it.
pub struct Outcome {
    pub state: UnitView,
    pub effects: Seq<EffectView>,
}

/// The warning that the command `action` lacks the parameter `what`.
pub open spec fn missing(what: Seq<char>, action: Seq<char>, parts: Seq<Seq<char>>) -> EffectView {
    log_effect(
        Level::Warn,
        MODULE@,
        MsgTemplate::MissingParameters.format_spec(what, action, join_spec(parts, " "@)),
    )
}

/// The title of the panel: the name of the system, the version of the
/// program, and the time.
pub open spec fn title_spec(sys_name: Seq<char>, version: Seq<char>, time: Seq<char>) -> Seq<char> {
    "command - "@ + sys_name + " (v"@ + version + ") - "@ + time
}

impl UnitView {
    /// The component when it starts.
    pub open spec fn start() -> UnitView {
        UnitView {
            output: Seq::empty(),
            panel_info: PanelInfo { panel_type: PanelType::Normal, x: 0, y: 0, w: 0, h: 0 },
        }
    }

    /// This state with the given effects.
    pub open spec fn unchanged(self, effects: Seq<EffectView>) -> Outcome {
        Outcome { state: self, effects }
    }

    /// What the component does with a command. A key goes on to the input
    /// line; `output_update <text>` sets what the panel shows and draws.
    pub open spec fn step(self, action: Action, parts: Seq<Seq<char>>) -> Outcome {
        match action {
            Action::Help => self.unchanged(seq![log_effect(Level::Info, MODULE@, "help"@)]),
            Action::Show => self.unchanged(seq![log_effect(Level::Info, MODULE@, "show"@)]),
            Action::Key => if parts.len() > 3 {
                self.unchanged(
                    seq![EffectView::Send { origin: MODULE@, cmd: "p gui key "@ + parts[3] }],
                )
            } else {
                self.unchanged(seq![missing("<key>"@, "key"@, parts)])
            },
            Action::Gui => match handle_gui(MODULE@, parts) {
                Ok(pair) => Outcome {
                    state: UnitView { panel_info: pair.0, ..self },
                    effects: seq![pair.1],
                },
                Err(w) => self.unchanged(seq![w]),
            },
            Action::OutputUpdate => if parts.len() > 3 {
                Outcome {
                    state: UnitView { output: parts[3], ..self },
                    effects: seq![EffectView::Send { origin: MODULE@, cmd: redraw_cmd() }],
                }
            } else {
                self.unchanged(seq![missing("<output>"@, "output_update"@, parts)])
            },
            _ => self.unchanged(
                seq![
                    log_effect(
                        Level::Warn,
                        MODULE@,
                        MsgTemplate::UnsupportedAction.format_spec(action.name(), ""@, ""@),
                    ),
                ],
            ),
        }
    }

    /// How the panel is drawn: in the rows kept for it at the bottom of the
    /// terminal, over the full width, with the cursor behind what it shows.
    pub open spec fn draw(
        self,
        area: Rect,
        active: bool,
        sys_name: Seq<char>,
        version: Seq<char>,
        time: Seq<char>,
    ) -> PanelDrawingView {
        let top = usable_height(area.height);
        let lines = split_spec(self.output, '\n');
        PanelDrawingView {
            area: panel_rect_spec(0, top, area.width, COMMAND_ROWS, area),
            title: title_spec(sys_name, version, time),
            active,
            scroll: 0,
            lines: Seq::new(
                lines.len(),
                |i: int| LineView { text: lines[i], style: LineStyle::Plain },
            ),
            cursor: Some((add_sat(len16(self.output), 1), add_sat(top, 1))),
        }
    }
}

impl View for PluginUnit {
    type V = UnitView;

    closed spec fn view(&self) -> UnitView {
        UnitView { output: self.output@, panel_info: self.panel_info }
    }
}

fn missing_effect(what: &str, action: &str, cmd_parts: &Vec<String>) -> (out: Effect)
    ensures
        out@ == missing(what@, action@, words_view(cmd_parts@)),
{
    let line = join(cmd_parts, " ");
    Effect::warn(MODULE, MsgTemplate::MissingParameters.format(what, action, line.as_str()).as_str())
}

fn up(n: u16) -> (out: u16)
    ensures
        out == add_sat(n, 1),
{
    if n == u16::MAX {
        n
    } else {
        n + 1
    }
}

impl PluginUnit {
    /// The command panel when it starts: it shows nothing.
    pub fn new() -> (out: PluginUnit)
        ensures
            out@ == UnitView::start(),
    {
        PluginUnit { output: String::new(), panel_info: PanelInfo::new(PanelType::Normal) }
    }

    /// The panel of the component.
    pub fn panel_info(&self) -> (out: PanelInfo)
        ensures
            out == self@.panel_info,
    {
        self.panel_info
    }

    /// What the panel shows.
    pub fn output(&self) -> (out: &str)
        ensures
            out@ == self@.output,
    {
        self.output.as_str()
    }

    /// Handles a command (see [`UnitView::step`]).
    pub fn handle_action(&mut self, action: Action, cmd_parts: &Vec<String>) -> (out: Vec<Effect>)
        ensures
            final(self)@ == old(self)@.step(action, words_view(cmd_parts@)).state,
            effects_view(out@) == old(self)@.step(action, words_view(cmd_parts@)).effects,
    {
        match action {
            Action::Help => one_effect(Effect::info(MODULE, "help")),
            Action::Show => one_effect(Effect::info(MODULE, "show")),
            Action::Key => if cmd_parts.len() > 3 {
                one_effect(
                    Effect::cmd(MODULE, concat("p gui key ", cmd_parts[3].as_str()).as_str()),
                )
            } else {
                one_effect(missing_effect("<key>", "key", cmd_parts))
            },
            Action::Gui => match handle_action_gui(MODULE, cmd_parts) {
                Ok(pair) => {
                    self.panel_info = pair.0;
                    one_effect(pair.1)
                },
                Err(w) => one_effect(w),
            },
            Action::OutputUpdate => if cmd_parts.len() > 3 {
                self.output = cmd_parts[3].clone();
                one_effect(Effect::cmd(MODULE, "p plugins redraw"))
            } else {
                one_effect(missing_effect("<output>", "output_update", cmd_parts))
            },
            _ => one_effect(
                Effect::warn(
                    MODULE,
                    MsgTemplate::UnsupportedAction.format(action.as_ref(), "", "").as_str(),
                ),
            ),
        }
    }

    /// Says how the panel is drawn in a terminal that covers `area`; the
    /// title shows the name of the system, the version of the program and
    /// the time (see [`UnitView::draw`]).
    pub fn draw(&self, area: Rect, active: bool, sys_name: &str, version: &str, time: &str) -> (out:
        PanelDrawing)
        ensures
            out@ == self@.draw(area, active, sys_name@, version@, time@),
    {
        let top: u16 = if area.height < COMMAND_ROWS {
            0
        } else {
            area.height - COMMAND_ROWS
        };
        let mut title = String::from_str("command - ");
        title.append(sys_name);
        title.append(" (v");
        title.append(version);
        title.append(") - ");
        title.append(time);
        let texts = split(self.output.as_str(), '\n');
        let ghost spec_lines = split_spec(self.output@, '\n');
        let mut lines: Vec<Line> = Vec::new();
        let mut i: usize = 0;
        while i < texts.len()
            invariant
                i <= texts.len(),
                words_view(texts@) == spec_lines,
                lines.len() == i,
                forall|j: int|
                    0 <= j < i ==> (#[trigger] lines@[j])@ == (LineView {
                        text: spec_lines[j],
                        style: LineStyle::Plain,
                    }),
            decreases texts.len() - i,
        {
            proof {
                assert(spec_lines[i as int] == texts@[i as int]@);
            }
            lines.push(Line { text: texts[i].clone(), style: LineStyle::Plain });
            i += 1;
        }
        let out = PanelDrawing {
            area: panel_rect(0, top, area.width, COMMAND_ROWS, area),
            title,
            active,
            scroll: 0,
            lines,
            cursor: Some((up(str_len16(self.output.as_str())), up(top))),
        };
        proof {
            assert(out@.lines =~= self@.draw(area, active, sys_name@, version@, time@).lines);
        }
        out
    }
}

} // verus!
