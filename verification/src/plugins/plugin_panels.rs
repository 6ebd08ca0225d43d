//! A component that owns panels on behalf of others: it keeps their place,
//! title and content, decides which one has the keys, and says how each is
//! drawn.

use vstd::prelude::*;
use vstd::string::*;
use crate::consts::{COMMAND, COMMAND_ROWS};
use crate::messages::{
    effects_view, log_effect, no_effect, one_effect, push_effect, Action, Effect, EffectView, Key,
    Level,
};
use crate::plugins::plugins_main::{handle_action_key_position, key_position, position};
use crate::text::{
    concat, decimal, decimal_spec, len16, pad_right, pad_right_spec, parse_unsigned,
    parse_unsigned_spec, str_len16, words_view,
};
use crate::utils::common::{
    cmd_action_spec, debug_text, debug_words, get_cmd_action, MsgTemplate,
};
use crate::utils::panel::{
    add_sat, caculate_position, caculate_position_spec, drawings_view, panel_rect,
    panel_rect_spec, scroll_offset, scroll_offset_spec, styled_lines, styled_lines_spec,
    usable_height, PanelDrawing, PanelDrawingView, Rect,
};

verus! {

/// The name under which this component is addressed.
pub const MODULE: &'static str = "panels";

/// The most entries that a panel keeps; older ones are dropped.
pub const MAX_OUTPUT_LEN: usize = 300;

/// The mark of a warning in panel content.
pub const WARN_MARK: &'static str = "[WARN]";

/// The mark of an error in panel content.
pub const ERROR_MARK: &'static str = "[ERROR]";

/// A panel: whose it is, where it lies, and what it shows.
#[derive(Debug)]
pub struct Panel {
    pub title: String,
    pub sub_title: String,
    pub popup: bool,
    pub plugin_name: String,
    pub x: u16,
    pub y: u16,
    pub width: u16,
    pub height: u16,
    pub output: Vec<String>,
}

/// A [`Panel`] as a plain value.
pub struct PanelView {
    pub title: Seq<char>,
    pub sub_title: Seq<char>,
    pub popup: bool,
    pub plugin_name: Seq<char>,
    pub x: u16,
    pub y: u16,
    pub width: u16,
    pub height: u16,
    pub output: Seq<Seq<char>>,
}

impl View for Panel {
    type V = PanelView;

    open spec fn view(&self) -> PanelView {
        PanelView {
            title: self.title@,
            sub_title: self.sub_title@,
            popup: self.popup,
            plugin_name: self.plugin_name@,
            x: self.x,
            y: self.y,
            width: self.width,
            height: self.height,
            output: words_view(self.output@),
        }
    }
}

/// The panels and which of them is active.
#[derive(Debug)]
pub struct Plugin {
    panels: Vec<Panel>,
    active_panel: usize,
    active_popup: Option<usize>,
    popup_cursor: (u16, u16),
}

/// A [`Plugin`] as a plain value.
pub struct PluginView {
    pub panels: Seq<PanelView>,
    pub active_panel: nat,
    pub active_popup: Option<nat>,
    pub popup_cursor: (u16, u16),
}

/// A state of the component together with the effects of reaching it.
pub struct Outcome {
    pub state: PluginView,
    pub effects: Seq<EffectView>,
}

/// The effect that logs `msg` for information, in the name of this component.
pub open spec fn info(msg: Seq<char>) -> EffectView {
    log_effect(Level::Info, MODULE@, msg)
}

/// The effect that logs `msg` as a warning, in the name of this component.
pub open spec fn warning(msg: Seq<char>) -> EffectView {
    log_effect(Level::Warn, MODULE@, msg)
}

/// The warning that the command `action` lacks parameters.
pub open spec fn incomplete(action: Seq<char>, parts: Seq<Seq<char>>) -> EffectView {
    warning("Incomplete `"@ + action + "` command: "@ + debug_text(parts))
}

/// One row of the table of panels.
pub open spec fn row_spec(
    id: Seq<char>,
    title: Seq<char>,
    sub_title: Seq<char>,
    popup: Seq<char>,
    plugin: Seq<char>,
) -> Seq<char> {
    "  "@ + pad_right_spec(id, 2) + " "@ + pad_right_spec(title, 12) + " "@ + pad_right_spec(
        sub_title,
        30,
    ) + " "@ + pad_right_spec(popup, 5) + " "@ + pad_right_spec(plugin, 12)
}

/// `true` or `false`, as text.
pub open spec fn bool_text(b: bool) -> Seq<char> {
    if b {
        "true"@
    } else {
        "false"@
    }
}

/// The most recent entries of `output`, at most [`MAX_OUTPUT_LEN`] of them.
pub open spec fn trimmed(output: Seq<Seq<char>>) -> Seq<Seq<char>> {
    if output.len() > MAX_OUTPUT_LEN {
        output.skip(output.len() - MAX_OUTPUT_LEN)
    } else {
        output
    }
}

/// The number that a word writes, where it fits a `u16`.
pub open spec fn cell_field(s: Seq<char>) -> Option<u16> {
    match parse_unsigned_spec(s, 0xffff) {
        Some(n) => Some(n as u16),
        None => None,
    }
}

/// The panel that the words of a `create` command describe: title, owner,
/// kind (`popup` for a popup), then `x`, `y`, width and height. `None`
/// where one of the four is no number.
pub open spec fn created_panel(parts: Seq<Seq<char>>) -> Option<PanelView>
    recommends
        parts.len() >= 10,
{
    if cell_field(parts[6]) is Some && cell_field(parts[7]) is Some && cell_field(parts[8]) is Some
        && cell_field(parts[9]) is Some {
        Some(
            PanelView {
                title: parts[3],
                sub_title: Seq::empty(),
                popup: parts[5] == "popup"@,
                plugin_name: parts[4],
                x: cell_field(parts[6])->0,
                y: cell_field(parts[7])->0,
                width: cell_field(parts[8])->0,
                height: cell_field(parts[9])->0,
                output: Seq::empty(),
            },
        )
    } else {
        None
    }
}

/// How one panel is drawn in a terminal that covers `area`. The pinned
/// command panel takes the rows kept for it and never scrolls; it places the
/// cursor behind its first entry. While a popup is open the cursor goes to
/// `popup_cursor` inside the panel instead.
pub open spec fn draw_panel_spec(
    panel: PanelView,
    area: Rect,
    active: bool,
    popup_open: bool,
    popup_cursor: (u16, u16),
) -> PanelDrawingView {
    let pinned = panel.title == COMMAND@;
    let place = if pinned {
        (0u16, usable_height(area.height), area.width, COMMAND_ROWS)
    } else {
        caculate_position_spec(area, panel.x, panel.y, panel.width, panel.height)
    };
    let cells = panel_rect_spec(place.0, place.1, place.2, place.3, area);
    PanelDrawingView {
        area: cells,
        title: panel.title + panel.sub_title,
        active,
        scroll: if pinned {
            0
        } else {
            scroll_offset_spec(panel.output.len(), cells.height)
        },
        lines: styled_lines_spec(panel.output, WARN_MARK@, ERROR_MARK@),
        cursor: if popup_open {
            Some(
                (
                    add_sat(add_sat(place.0, popup_cursor.0), 1),
                    add_sat(add_sat(place.1, popup_cursor.1), 1),
                ),
            )
        } else if pinned && panel.output.len() > 0 {
            Some((add_sat(add_sat(place.0, len16(panel.output[0])), 1), add_sat(place.1, 1)))
        } else {
            None
        },
    }
}

impl PluginView {
    /// The active panel and the active popup are panels that exist.
    pub open spec fn wf(self) -> bool {
        &&& self.active_panel < self.panels.len() || (self.panels.len() == 0 && self.active_panel
            == 0)
        &&& self.active_popup matches Some(p) ==> p < self.panels.len()
    }

    /// The component before any panel was created.
    pub open spec fn empty() -> PluginView {
        PluginView {
            panels: Seq::empty(),
            active_panel: 0,
            active_popup: None,
            popup_cursor: (0, 0),
        }
    }

    /// The titles of the panels, in the order of creation.
    pub open spec fn titles(self) -> Seq<Seq<char>> {
        Seq::new(self.panels.len(), |i: int| self.panels[i].title)
    }

    /// This state with the given effects.
    pub open spec fn unchanged(self, effects: Seq<EffectView>) -> Outcome {
        Outcome { state: self, effects }
    }

    /// This state with the panel at place `i` replaced, and a redraw.
    pub open spec fn redrawn_with(self, i: int, panel: PanelView) -> Outcome {
        Outcome {
            state: PluginView { panels: self.panels.update(i, panel), ..self },
            effects: seq![EffectView::Redraw],
        }
    }

    /// The rows of the table of panels, for the first `upto` panels.
    pub open spec fn rows(self, upto: nat) -> Seq<EffectView> {
        Seq::new(
            upto,
            |i: int|
                info(
                    row_spec(
                        decimal_spec(i as nat),
                        self.panels[i].title,
                        self.panels[i].sub_title,
                        bool_text(self.panels[i].popup),
                        self.panels[i].plugin_name,
                    ),
                ),
        )
    }

    /// `show`: the table of panels.
    pub open spec fn handle_show(self) -> Outcome {
        self.unchanged(
            seq![
                info("show"@),
                info("  Number of panels: "@ + decimal_spec(self.panels.len())),
                info(row_spec("ID"@, "Title"@, "Subtitle"@, "Popup"@, "Plugin"@)),
            ] + self.rows(self.panels.len()) + seq![
                info("  Active panel: "@ + decimal_spec(self.active_panel)),
            ],
        )
    }

    /// `create <title> <plugin> <kind> <x> <y> <width> <height>`: adds a
    /// panel and draws.
    pub open spec fn handle_create(self, parts: Seq<Seq<char>>) -> Outcome {
        if parts.len() < 10 {
            self.unchanged(seq![incomplete("create"@, parts)])
        } else {
            match created_panel(parts) {
                Some(panel) => Outcome {
                    state: PluginView { panels: self.panels.push(panel), ..self },
                    effects: seq![EffectView::Redraw],
                },
                None => self.unchanged(
                    seq![
                        warning(
                            MsgTemplate::InvalidParameters.format_spec(
                                "<x> <y> <width> <height>"@,
                                "create"@,
                                crate::text::join_spec(parts, " "@),
                            ),
                        ),
                    ],
                ),
            }
        }
    }

    /// `output_push <title> <message>`: appends the message to the first
    /// panel of that title, drops what is older than the last
    /// [`MAX_OUTPUT_LEN`] entries, and draws.
    pub open spec fn handle_output_push(self, parts: Seq<Seq<char>>) -> Outcome {
        if parts.len() < 5 {
            self.unchanged(seq![incomplete("output_push"@, parts)])
        } else {
            match position(self.titles(), parts[3]) {
                Some(i) => self.redrawn_with(
                    i as int,
                    PanelView {
                        output: trimmed(self.panels[i as int].output.push(parts[4])),
                        ..self.panels[i as int]
                    },
                ),
                None => self.unchanged(seq![EffectView::Redraw]),
            }
        }
    }

    /// `output_update <title> <message>`: the message becomes all that the
    /// first panel of that title shows.
    pub open spec fn handle_output_update(self, parts: Seq<Seq<char>>) -> Outcome {
        if parts.len() < 5 {
            self.unchanged(seq![incomplete("update"@, parts)])
        } else {
            match position(self.titles(), parts[3]) {
                Some(i) => self.redrawn_with(
                    i as int,
                    PanelView { output: seq![parts[4]], ..self.panels[i as int] },
                ),
                None => self.unchanged(seq![EffectView::Redraw]),
            }
        }
    }

    /// `sub_title <title> <sub_title>`: sets the second part of the title of
    /// the first panel of that title. It always draws.
    pub open spec fn handle_sub_title(self, parts: Seq<Seq<char>>) -> Outcome {
        if parts.len() < 5 {
            self.unchanged(seq![EffectView::Redraw])
        } else {
            match position(self.titles(), parts[3]) {
                Some(i) => self.redrawn_with(
                    i as int,
                    PanelView { sub_title: parts[4], ..self.panels[i as int] },
                ),
                None => self.unchanged(seq![EffectView::Redraw]),
            }
        }
    }

    /// The first place from `lo` up to, but not including, `hi` whose panel
    /// is a popup of the title `title`.
    pub open spec fn find_popup(self, title: Seq<char>, lo: nat, hi: nat) -> Option<nat>
        decreases hi - lo,
    {
        if lo >= hi {
            None
        } else if self.panels[lo as int].title == title && self.panels[lo as int].popup {
            Some(lo)
        } else {
            self.find_popup(title, lo + 1, hi)
        }
    }

    /// `popup <title>`: the first popup of that title becomes the active
    /// popup. It always draws.
    pub open spec fn handle_popup(self, parts: Seq<Seq<char>>) -> Outcome {
        if parts.len() < 4 {
            self.unchanged(seq![EffectView::Redraw])
        } else {
            match self.find_popup(parts[3], 0, self.panels.len()) {
                Some(i) => Outcome {
                    state: PluginView { active_popup: Some(i), ..self },
                    effects: seq![EffectView::Redraw],
                },
                None => self.unchanged(seq![EffectView::Redraw]),
            }
        }
    }

    /// The first place from `lo` up to, but not including, `hi` whose panel
    /// is no popup.
    pub open spec fn next_stop(self, lo: nat, hi: nat) -> Option<nat>
        decreases hi - lo,
    {
        if lo >= hi {
            None
        } else if !self.panels[lo as int].popup {
            Some(lo)
        } else {
            self.next_stop(lo + 1, hi)
        }
    }

    /// The tab key: with no popup active, the next panel round the order
    /// that is no popup becomes the active one, and the panels are drawn.
    pub open spec fn handle_tab(self) -> Outcome {
        if self.active_popup is Some || self.panels.len() == 0 {
            self.unchanged(Seq::empty())
        } else {
            let target = match self.next_stop(self.active_panel + 1, self.panels.len()) {
                Some(i) => Some(i),
                None => self.next_stop(0, self.active_panel + 1),
            };
            match target {
                Some(i) => Outcome {
                    state: PluginView { active_panel: i, ..self },
                    effects: seq![EffectView::Redraw],
                },
                None => self.unchanged(seq![EffectView::Redraw]),
            }
        }
    }

    /// The place of the panel that gets the keys: the active popup where
    /// there is one, else the active panel.
    pub open spec fn key_panel(self) -> Option<nat> {
        match self.active_popup {
            Some(p) => if p < self.panels.len() {
                Some(p)
            } else {
                None
            },
            None => if self.active_panel < self.panels.len() {
                Some(self.active_panel)
            } else {
                None
            },
        }
    }

    /// An arrow key: it is sent on to the component that owns the panel
    /// that gets the keys.
    pub open spec fn handle_arrow(self, key: Key) -> Outcome {
        match self.key_panel() {
            Some(i) => self.unchanged(
                seq![
                    EffectView::Send {
                        origin: MODULE@,
                        cmd: "p "@ + self.panels[i as int].plugin_name + " key "@ + key.name(),
                    },
                ],
            ),
            None => self.unchanged(Seq::empty()),
        }
    }

    /// The key that clears the content of the active panel.
    pub open spec fn handle_clear(self) -> Outcome {
        if self.active_panel < self.panels.len() {
            self.redrawn_with(
                self.active_panel as int,
                PanelView { output: Seq::empty(), ..self.panels[self.active_panel as int] },
            )
        } else {
            self.unchanged(seq![EffectView::Redraw])
        }
    }

    /// A key that moves or resizes the active panel by one step.
    pub open spec fn handle_nudge(self, key: Key) -> Outcome {
        if self.active_panel < self.panels.len() {
            let panel = self.panels[self.active_panel as int];
            let place = key_position(key, panel.x, panel.y, panel.width, panel.height);
            self.redrawn_with(
                self.active_panel as int,
                PanelView { x: place.0, y: place.1, width: place.2, height: place.3, ..panel },
            )
        } else {
            self.unchanged(seq![EffectView::Redraw])
        }
    }

    /// `key <code>`: what a key does.
    pub open spec fn handle_key(self, parts: Seq<Seq<char>>) -> Outcome {
        if parts.len() <= 3 {
            self.unchanged(
                seq![
                    warning(
                        MsgTemplate::MissingParameters.format_spec(
                            "<key>"@,
                            "key"@,
                            crate::text::join_spec(parts, " "@),
                        ),
                    ),
                ],
            )
        } else {
            match Key::named(parts[3]) {
                None => self.unchanged(
                    seq![
                        warning(
                            MsgTemplate::InvalidParameters.format_spec(
                                "<key>"@,
                                "key"@,
                                crate::text::join_spec(parts, " "@),
                            ),
                        ),
                    ],
                ),
                Some(key) => match key {
                    Key::Up | Key::Down | Key::Left | Key::Right => self.handle_arrow(key),
                    Key::Tab => self.handle_tab(),
                    Key::AltC => self.handle_clear(),
                    Key::AltW
                    | Key::AltS
                    | Key::AltA
                    | Key::AltD
                    | Key::AltUp
                    | Key::AltDown
                    | Key::AltLeft
                    | Key::AltRight => self.handle_nudge(key),
                    Key::ControlX => Outcome {
                        state: PluginView { active_popup: None, ..self },
                        effects: seq![EffectView::Redraw],
                    },
                    _ => self.unchanged(Seq::empty()),
                },
            }
        }
    }

    /// What the component does with the words of a command and its action.
    pub open spec fn step(self, action: Action, parts: Seq<Seq<char>>) -> Outcome {
        match action {
            Action::Help => self.unchanged(seq![info("help"@)]),
            Action::Show => self.handle_show(),
            Action::Create => self.handle_create(parts),
            Action::OutputPush => self.handle_output_push(parts),
            Action::OutputUpdate => self.handle_output_update(parts),
            Action::Key => self.handle_key(parts),
            Action::SubTitle => self.handle_sub_title(parts),
            Action::Popup => self.handle_popup(parts),
            _ => self.unchanged(
                seq![warning(MsgTemplate::UnsupportedAction.format_spec(action.name(), ""@, ""@))],
            ),
        }
    }

    /// What the component does with a command line: a line that cannot be
    /// read, or whose action is not of the vocabulary, is dropped with a
    /// warning.
    pub open spec fn handle(self, cmd: Seq<char>) -> Outcome {
        match cmd_action_spec(cmd) {
            Ok(pair) => self.step(pair.1, pair.0),
            Err(w) => self.unchanged(seq![warning(w)]),
        }
    }

    /// The drawing of the panel at place `i`.
    pub open spec fn drawing(self, i: int, area: Rect, active: bool) -> PanelDrawingView {
        draw_panel_spec(self.panels[i], area, active, self.active_popup is Some, self.popup_cursor)
    }

    /// The drawings of the panels among the first `upto` that are neither
    /// popups nor the active panel, in the order of creation.
    pub open spec fn draw_inactive(self, upto: nat, area: Rect) -> Seq<PanelDrawingView>
        decreases upto,
    {
        if upto == 0 {
            Seq::empty()
        } else {
            let i = upto - 1;
            let before = self.draw_inactive(i as nat, area);
            if i != self.active_panel && !self.panels[i].popup {
                before.push(self.drawing(i, area, false))
            } else {
                before
            }
        }
    }

    /// What is drawn, first to last: the inactive normal panels, the active
    /// panel where it is a normal panel, and last the active popup.
    pub open spec fn draw(self, area: Rect) -> Seq<PanelDrawingView> {
        self.draw_inactive(self.panels.len(), area) + (if self.active_panel < self.panels.len()
            && !self.panels[self.active_panel as int].popup {
            seq![self.drawing(self.active_panel as int, area, true)]
        } else {
            Seq::empty()
        }) + (match self.active_popup {
            Some(p) => if p < self.panels.len() && self.panels[p as int].popup {
                seq![self.drawing(p as int, area, true)]
            } else {
                Seq::empty()
            },
            None => Seq::empty(),
        })
    }
}

impl View for Plugin {
    type V = PluginView;

    closed spec fn view(&self) -> PluginView {
        PluginView {
            panels: Seq::new(self.panels@.len(), |i: int| self.panels@[i]@),
            active_panel: self.active_panel as nat,
            active_popup: match self.active_popup {
                Some(p) => Some(p as nat),
                None => None,
            },
            popup_cursor: self.popup_cursor,
        }
    }
}

fn incomplete_effect(action: &str, cmd_parts: &Vec<String>) -> (out: Effect)
    ensures
        out@ == incomplete(action@, words_view(cmd_parts@)),
{
    let mut text = String::from_str("Incomplete `");
    text.append(action);
    text.append("` command: ");
    text.append(debug_words(cmd_parts).as_str());
    Effect::warn(MODULE, text.as_str())
}

fn row(id: &str, title: &str, sub_title: &str, popup: &str, plugin: &str) -> (out: String)
    ensures
        out@ == row_spec(id@, title@, sub_title@, popup@, plugin@),
{
    let mut out = String::from_str("  ");
    out.append(pad_right(id, 2).as_str());
    out.append(" ");
    out.append(pad_right(title, 12).as_str());
    out.append(" ");
    out.append(pad_right(sub_title, 30).as_str());
    out.append(" ");
    out.append(pad_right(popup, 5).as_str());
    out.append(" ");
    out.append(pad_right(plugin, 12).as_str());
    out
}

fn parse_cell(s: &str) -> (out: Option<u16>)
    ensures
        out == cell_field(s@),
{
    match parse_unsigned(s, 0xffff) {
        Some(n) => Some(n as u16),
        None => None,
    }
}

fn sat_add(a: u16, b: u16) -> (out: u16)
    ensures
        out == add_sat(a, b),
{
    if b > u16::MAX - a {
        u16::MAX
    } else {
        a + b
    }
}

/// Says how one panel is drawn (see [`draw_panel_spec`]).
pub fn draw_panel(
    panel: &Panel,
    area: Rect,
    active: bool,
    active_popup: Option<usize>,
    popup_cursor: (u16, u16),
) -> (out: PanelDrawing)
    ensures
        out@ == draw_panel_spec(panel@, area, active, active_popup is Some, popup_cursor),
{
    let pinned = panel.title.as_str().eq(COMMAND);
    let place = if pinned {
        let top: u16 = if area.height < COMMAND_ROWS {
            0
        } else {
            area.height - COMMAND_ROWS
        };
        (0u16, top, area.width, COMMAND_ROWS)
    } else {
        caculate_position(area, panel.x, panel.y, panel.width, panel.height)
    };
    let cells = panel_rect(place.0, place.1, place.2, place.3, area);
    let scroll: u16 = if pinned {
        0
    } else {
        scroll_offset(panel.output.len(), cells.height)
    };
    let cursor = if active_popup.is_some() {
        Some(
            (
                sat_add(sat_add(place.0, popup_cursor.0), 1),
                sat_add(sat_add(place.1, popup_cursor.1), 1),
            ),
        )
    } else if pinned && panel.output.len() > 0 {
        proof {
            assert(panel@.output[0] == panel.output@[0]@);
        }
        let len: u16 = str_len16(panel.output[0].as_str());
        Some((sat_add(sat_add(place.0, len), 1), sat_add(place.1, 1)))
    } else {
        None
    };
    PanelDrawing {
        area: cells,
        title: concat(panel.title.as_str(), panel.sub_title.as_str()),
        active,
        scroll,
        lines: styled_lines(&panel.output, WARN_MARK, ERROR_MARK),
        cursor,
    }
}

impl Plugin {
    /// Whether the component is in order (see [`PluginView::wf`]).
    pub open spec fn wf(&self) -> bool {
        self@.wf()
    }

    /// A component without panels.
    pub fn new() -> (out: Plugin)
        ensures
            out@ == PluginView::empty(),
            out.wf(),
    {
        let out = Plugin {
            panels: Vec::new(),
            active_panel: 0,
            active_popup: None,
            popup_cursor: (0, 0),
        };
        assert(out@.panels =~= Seq::empty());
        out
    }

    /// The panels, in the order of creation.
    pub fn panels(&self) -> (out: &Vec<Panel>)
        ensures
            out@.len() == self@.panels.len(),
            forall|i: int| 0 <= i < out@.len() ==> (#[trigger] out@[i])@ == self@.panels[i],
    {
        &self.panels
    }

    /// The place of the active panel.
    pub fn active_panel(&self) -> (out: usize)
        ensures
            out == self@.active_panel,
    {
        self.active_panel
    }

    /// The place of the active popup, if a popup is active.
    pub fn active_popup(&self) -> (out: Option<usize>)
        ensures
            out is Some == self@.active_popup is Some,
            out matches Some(p) ==> self@.active_popup == Some(p as nat),
    {
        self.active_popup
    }

    fn find_title(&self, title: &str) -> (out: Option<usize>)
        ensures
            out matches Some(i) ==> i < self.panels.len() && position(self@.titles(), title@)
                == Some(i as nat),
            out is None ==> position(self@.titles(), title@) is None,
    {
        let ghost titles = self@.titles();
        let mut i: usize = 0;
        while i < self.panels.len()
            invariant
                i <= self.panels.len(),
                titles == self@.titles(),
                titles.len() == self.panels.len(),
                forall|j: int| 0 <= j < i ==> titles[j] != title@,
            decreases self.panels.len() - i,
        {
            proof {
                assert(titles[i as int] == self.panels@[i as int].title@);
            }
            if self.panels[i].title.as_str().eq(title) {
                proof {
                    crate::plugins::plugins_main::lemma_position_is(titles, title@, i as int);
                }
                return Some(i);
            }
            i += 1;
        }
        proof {
            crate::plugins::plugins_main::lemma_position(titles, title@);
        }
        None
    }

    fn handle_cmd_show(&self) -> (out: Vec<Effect>)
        ensures
            effects_view(out@) == self@.handle_show().effects,
    {
        let mut out: Vec<Effect> = Vec::new();
        push_effect(&mut out, Effect::info(MODULE, "show"));
        let count = concat("  Number of panels: ", decimal(self.panels.len() as u64).as_str());
        push_effect(&mut out, Effect::info(MODULE, count.as_str()));
        let header = row("ID", "Title", "Subtitle", "Popup", "Plugin");
        push_effect(&mut out, Effect::info(MODULE, header.as_str()));
        let ghost head = seq![
            info("show"@),
            info("  Number of panels: "@ + decimal_spec(self@.panels.len())),
            info(row_spec("ID"@, "Title"@, "Subtitle"@, "Popup"@, "Plugin"@)),
        ];
        assert(effects_view(out@) =~= head + self@.rows(0));
        let mut i: usize = 0;
        while i < self.panels.len()
            invariant
                i <= self.panels.len(),
                effects_view(out@) == head + self@.rows(i as nat),
            decreases self.panels.len() - i,
        {
            let panel = &self.panels[i];
            let id = decimal(i as u64);
            let popup = if panel.popup {
                "true"
            } else {
                "false"
            };
            let line = row(
                id.as_str(),
                panel.title.as_str(),
                panel.sub_title.as_str(),
                popup,
                panel.plugin_name.as_str(),
            );
            push_effect(&mut out, Effect::info(MODULE, line.as_str()));
            proof {
                assert(self@.panels[i as int] == self.panels@[i as int]@);
                assert(self@.rows((i + 1) as nat) =~= self@.rows(i as nat).push(
                    info(line@),
                ));
                assert(effects_view(out@) =~= head + self@.rows((i + 1) as nat));
            }
            i += 1;
        }
        let active = concat("  Active panel: ", decimal(self.active_panel as u64).as_str());
        push_effect(&mut out, Effect::info(MODULE, active.as_str()));
        assert(effects_view(out@) =~= self@.handle_show().effects);
        out
    }

    fn handle_cmd_create(&mut self, cmd_parts: &Vec<String>) -> (out: Vec<Effect>)
        requires
            old(self).wf(),
        ensures
            final(self).wf(),
            final(self)@ == old(self)@.handle_create(words_view(cmd_parts@)).state,
            effects_view(out@) == old(self)@.handle_create(words_view(cmd_parts@)).effects,
    {
        if cmd_parts.len() < 10 {
            return one_effect(incomplete_effect("create", cmd_parts));
        }
        let x = parse_cell(cmd_parts[6].as_str());
        let y = parse_cell(cmd_parts[7].as_str());
        let width = parse_cell(cmd_parts[8].as_str());
        let height = parse_cell(cmd_parts[9].as_str());
        match (x, y, width, height) {
            (Some(x), Some(y), Some(width), Some(height)) => {
                let panel = Panel {
                    title: cmd_parts[3].clone(),
                    sub_title: String::new(),
                    popup: cmd_parts[5].as_str().eq("popup"),
                    plugin_name: cmd_parts[4].clone(),
                    x,
                    y,
                    width,
                    height,
                    output: Vec::new(),
                };
                proof {
                    assert(panel@.output =~= Seq::empty());
                    assert(panel@ == created_panel(words_view(cmd_parts@))->0);
                }
                self.panels.push(panel);
                proof {
                    assert(self@.panels =~= old(self)@.panels.push(
                        created_panel(words_view(cmd_parts@))->0,
                    ));
                }
                one_effect(Effect::Redraw)
            },
            _ => {
                let line = crate::text::join(cmd_parts, " ");
                one_effect(
                    Effect::warn(
                        MODULE,
                        MsgTemplate::InvalidParameters.format(
                            "<x> <y> <width> <height>",
                            "create",
                            line.as_str(),
                        ).as_str(),
                    ),
                )
            },
        }
    }

    fn handle_cmd_output_push(&mut self, cmd_parts: &Vec<String>) -> (out: Vec<Effect>)
        requires
            old(self).wf(),
        ensures
            final(self).wf(),
            final(self)@ == old(self)@.handle_output_push(words_view(cmd_parts@)).state,
            effects_view(out@) == old(self)@.handle_output_push(words_view(cmd_parts@)).effects,
    {
        if cmd_parts.len() < 5 {
            return one_effect(incomplete_effect("output_push", cmd_parts));
        }
        match self.find_title(cmd_parts[3].as_str()) {
            Some(i) => {
                let ghost before = self@.panels[i as int];
                assert(before == self.panels@[i as int]@);
                self.panels[i].output.push(cmd_parts[4].clone());
                let len: usize = self.panels[i].output.len();
                if len > MAX_OUTPUT_LEN {
                    let kept = self.panels[i].output.split_off(len - MAX_OUTPUT_LEN);
                    self.panels[i].output = kept;
                }
                proof {
                    let w = words_view(cmd_parts@);
                    let pushed = before.output.push(w[4]);
                    assert(self.panels@[i as int]@.output =~= trimmed(pushed));
                    assert(self@.panels =~= old(self)@.panels.update(
                        i as int,
                        PanelView { output: trimmed(pushed), ..before },
                    ));
                }
            },
            None => {},
        }
        one_effect(Effect::Redraw)
    }

    fn handle_cmd_output_update(&mut self, cmd_parts: &Vec<String>) -> (out: Vec<Effect>)
        requires
            old(self).wf(),
        ensures
            final(self).wf(),
            final(self)@ == old(self)@.handle_output_update(words_view(cmd_parts@)).state,
            effects_view(out@) == old(self)@.handle_output_update(words_view(cmd_parts@)).effects,
    {
        if cmd_parts.len() < 5 {
            return one_effect(incomplete_effect("update", cmd_parts));
        }
        match self.find_title(cmd_parts[3].as_str()) {
            Some(i) => {
                let ghost before = self@.panels[i as int];
                assert(before == self.panels@[i as int]@);
                let mut output: Vec<String> = Vec::new();
                output.push(cmd_parts[4].clone());
                self.panels[i].output = output;
                proof {
                    let w = words_view(cmd_parts@);
                    assert(self.panels@[i as int]@.output =~= seq![w[4]]);
                    assert(self@.panels =~= old(self)@.panels.update(
                        i as int,
                        PanelView { output: seq![w[4]], ..before },
                    ));
                }
            },
            None => {},
        }
        one_effect(Effect::Redraw)
    }

    fn handle_cmd_sub_title(&mut self, cmd_parts: &Vec<String>) -> (out: Vec<Effect>)
        requires
            old(self).wf(),
        ensures
            final(self).wf(),
            final(self)@ == old(self)@.handle_sub_title(words_view(cmd_parts@)).state,
            effects_view(out@) == old(self)@.handle_sub_title(words_view(cmd_parts@)).effects,
    {
        if cmd_parts.len() >= 5 {
            match self.find_title(cmd_parts[3].as_str()) {
                Some(i) => {
                    let ghost before = self@.panels[i as int];
                    assert(before == self.panels@[i as int]@);
                    self.panels[i].sub_title = cmd_parts[4].clone();
                    proof {
                        let w = words_view(cmd_parts@);
                        assert(self@.panels =~= old(self)@.panels.update(
                            i as int,
                            PanelView { sub_title: w[4], ..before },
                        ));
                    }
                },
                None => {},
            }
        }
        one_effect(Effect::Redraw)
    }

    fn handle_cmd_popup(&mut self, cmd_parts: &Vec<String>) -> (out: Vec<Effect>)
        requires
            old(self).wf(),
        ensures
            final(self).wf(),
            final(self)@ == old(self)@.handle_popup(words_view(cmd_parts@)).state,
            effects_view(out@) == old(self)@.handle_popup(words_view(cmd_parts@)).effects,
    {
        if cmd_parts.len() >= 4 {
            let title = cmd_parts[3].as_str();
            let mut i: usize = 0;
            while i < self.panels.len()
                invariant
                    i <= self.panels.len(),
                    *self == *old(self),
                    self.wf(),
                    cmd_parts.len() >= 4,
                    title@ == words_view(cmd_parts@)[3],
                    self@.find_popup(title@, 0, self.panels.len() as nat) == self@.find_popup(
                        title@,
                        i as nat,
                        self.panels.len() as nat,
                    ),
                decreases self.panels.len() - i,
            {
                proof {
                    assert(self@.panels[i as int] == self.panels@[i as int]@);
                }
                if self.panels[i].title.as_str().eq(title) && self.panels[i].popup {
                    self.active_popup = Some(i);
                    proof {
                        assert(self@.panels =~= old(self)@.panels);
                    }
                    return one_effect(Effect::Redraw);
                }
                i += 1;
            }
        }
        one_effect(Effect::Redraw)
    }

    fn next_stop(&self, lo: usize, hi: usize) -> (out: Option<usize>)
        requires
            hi <= self.panels.len(),
        ensures
            out matches Some(i) ==> i < hi && self@.next_stop(lo as nat, hi as nat) == Some(
                i as nat,
            ),
            out is None ==> self@.next_stop(lo as nat, hi as nat) is None,
    {
        let mut i: usize = lo;
        while i < hi
            invariant
                lo <= i,
                hi <= self.panels.len(),
                self@.next_stop(lo as nat, hi as nat) == self@.next_stop(i as nat, hi as nat),
            decreases hi - i,
        {
            proof {
                assert(self@.panels[i as int] == self.panels@[i as int]@);
            }
            if !self.panels[i].popup {
                return Some(i);
            }
            i += 1;
        }
        None
    }

    fn handle_cmd_key_tab(&mut self) -> (out: Vec<Effect>)
        requires
            old(self).wf(),
        ensures
            final(self).wf(),
            final(self)@ == old(self)@.handle_tab().state,
            effects_view(out@) == old(self)@.handle_tab().effects,
    {
        if self.active_popup.is_some() || self.panels.len() == 0 {
            return no_effect();
        }
        let target = match self.next_stop(self.active_panel + 1, self.panels.len()) {
            Some(i) => Some(i),
            None => self.next_stop(0, self.active_panel + 1),
        };
        match target {
            Some(i) => {
                self.active_panel = i;
                proof {
                    assert(self@.panels =~= old(self)@.panels);
                }
            },
            None => {},
        }
        one_effect(Effect::Redraw)
    }

    fn handle_cmd_key_arrow(&self, key: Key) -> (out: Vec<Effect>)
        requires
            self.wf(),
        ensures
            effects_view(out@) == self@.handle_arrow(key).effects,
    {
        let target: Option<usize> = match self.active_popup {
            Some(p) => Some(p),
            None => if self.active_panel < self.panels.len() {
                Some(self.active_panel)
            } else {
                None
            },
        };
        match target {
            Some(i) => {
                proof {
                    assert(self@.panels[i as int] == self.panels@[i as int]@);
                }
                let mut text = String::from_str("p ");
                text.append(self.panels[i].plugin_name.as_str());
                text.append(" key ");
                text.append(key.as_ref());
                one_effect(Effect::cmd(MODULE, text.as_str()))
            },
            None => no_effect(),
        }
    }

    fn handle_cmd_key_alt_c(&mut self) -> (out: Vec<Effect>)
        requires
            old(self).wf(),
        ensures
            final(self).wf(),
            final(self)@ == old(self)@.handle_clear().state,
            effects_view(out@) == old(self)@.handle_clear().effects,
    {
        if self.active_panel < self.panels.len() {
            let i = self.active_panel;
            let ghost before = self@.panels[i as int];
            assert(before == self.panels@[i as int]@);
            self.panels[i].output = Vec::new();
            proof {
                assert(self.panels@[i as int]@.output =~= Seq::empty());
                assert(self@.panels =~= old(self)@.panels.update(
                    i as int,
                    PanelView { output: Seq::empty(), ..before },
                ));
            }
        }
        one_effect(Effect::Redraw)
    }

    fn handle_cmd_key_alt(&mut self, key: Key) -> (out: Vec<Effect>)
        requires
            old(self).wf(),
        ensures
            final(self).wf(),
            final(self)@ == old(self)@.handle_nudge(key).state,
            effects_view(out@) == old(self)@.handle_nudge(key).effects,
    {
        if self.active_panel < self.panels.len() {
            let i = self.active_panel;
            let ghost before = self@.panels[i as int];
            assert(before == self.panels@[i as int]@);
            let panel = &self.panels[i];
            let moved = handle_action_key_position(
                MODULE,
                key,
                panel.x,
                panel.y,
                panel.width,
                panel.height,
            );
            let place = moved.0;
            self.panels[i].x = place.0;
            self.panels[i].y = place.1;
            self.panels[i].width = place.2;
            self.panels[i].height = place.3;
            proof {
                assert(self@.panels =~= old(self)@.panels.update(
                    i as int,
                    PanelView {
                        x: place.0,
                        y: place.1,
                        width: place.2,
                        height: place.3,
                        ..before
                    },
                ));
            }
        }
        one_effect(Effect::Redraw)
    }

    fn handle_cmd_key(&mut self, cmd_parts: &Vec<String>) -> (out: Vec<Effect>)
        requires
            old(self).wf(),
        ensures
            final(self).wf(),
            final(self)@ == old(self)@.handle_key(words_view(cmd_parts@)).state,
            effects_view(out@) == old(self)@.handle_key(words_view(cmd_parts@)).effects,
    {
        if cmd_parts.len() <= 3 {
            let line = crate::text::join(cmd_parts, " ");
            return one_effect(
                Effect::warn(
                    MODULE,
                    MsgTemplate::MissingParameters.format("<key>", "key", line.as_str()).as_str(),
                ),
            );
        }
        match Key::parse(cmd_parts[3].as_str()) {
            None => {
                let line = crate::text::join(cmd_parts, " ");
                one_effect(
                    Effect::warn(
                        MODULE,
                        MsgTemplate::InvalidParameters.format(
                            "<key>",
                            "key",
                            line.as_str(),
                        ).as_str(),
                    ),
                )
            },
            Some(key) => match key {
                Key::Up | Key::Down | Key::Left | Key::Right => self.handle_cmd_key_arrow(key),
                Key::Tab => self.handle_cmd_key_tab(),
                Key::AltC => self.handle_cmd_key_alt_c(),
                Key::AltW
                | Key::AltS
                | Key::AltA
                | Key::AltD
                | Key::AltUp
                | Key::AltDown
                | Key::AltLeft
                | Key::AltRight => self.handle_cmd_key_alt(key),
                Key::ControlX => {
                    self.active_popup = None;
                    proof {
                        assert(self@.panels =~= old(self)@.panels);
                    }
                    one_effect(Effect::Redraw)
                },
                _ => no_effect(),
            },
        }
    }

    /// Handles the words of a command whose action was read already (see
    /// [`PluginView::step`]).
    pub fn handle_action(&mut self, action: Action, cmd_parts: &Vec<String>) -> (out: Vec<Effect>)
        requires
            old(self).wf(),
        ensures
            final(self).wf(),
            final(self)@ == old(self)@.step(action, words_view(cmd_parts@)).state,
            effects_view(out@) == old(self)@.step(action, words_view(cmd_parts@)).effects,
    {
        match action {
            Action::Help => one_effect(Effect::info(MODULE, "help")),
            Action::Show => self.handle_cmd_show(),
            Action::Create => self.handle_cmd_create(cmd_parts),
            Action::OutputPush => self.handle_cmd_output_push(cmd_parts),
            Action::OutputUpdate => self.handle_cmd_output_update(cmd_parts),
            Action::Key => self.handle_cmd_key(cmd_parts),
            Action::SubTitle => self.handle_cmd_sub_title(cmd_parts),
            Action::Popup => self.handle_cmd_popup(cmd_parts),
            _ => one_effect(
                Effect::warn(
                    MODULE,
                    MsgTemplate::UnsupportedAction.format(action.as_ref(), "", "").as_str(),
                ),
            ),
        }
    }

    /// Handles one command line (see [`PluginView::handle`]).
    pub fn handle_cmd(&mut self, cmd: &str) -> (out: Vec<Effect>)
        requires
            old(self).wf(),
        ensures
            final(self).wf(),
            final(self)@ == old(self)@.handle(cmd@).state,
            effects_view(out@) == old(self)@.handle(cmd@).effects,
    {
        match get_cmd_action(cmd) {
            Ok(pair) => self.handle_action(pair.1, &pair.0),
            Err(w) => one_effect(Effect::warn(MODULE, w.as_str())),
        }
    }

    /// Says what to draw, first to last, in a terminal that covers `area`
    /// (see [`PluginView::draw`]).
    pub fn draw(&self, area: Rect) -> (out: Vec<PanelDrawing>)
        requires
            self.wf(),
        ensures
            drawings_view(out@) == self@.draw(area),
    {
        let mut out: Vec<PanelDrawing> = Vec::new();
        let mut i: usize = 0;
        assert(drawings_view(out@) =~= self@.draw_inactive(0, area));
        while i < self.panels.len()
            invariant
                i <= self.panels.len(),
                drawings_view(out@) == self@.draw_inactive(i as nat, area),
            decreases self.panels.len() - i,
        {
            proof {
                assert(self@.panels[i as int] == self.panels@[i as int]@);
            }
            if i != self.active_panel && !self.panels[i].popup {
                let ghost shown = drawings_view(out@);
                let d = draw_panel(&self.panels[i], area, false, self.active_popup, self.popup_cursor);
                out.push(d);
                assert(drawings_view(out@) =~= shown.push(self@.drawing(i as int, area, false)));
            }
            i += 1;
        }
        if self.active_panel < self.panels.len() {
            let i = self.active_panel;
            proof {
                assert(self@.panels[i as int] == self.panels@[i as int]@);
            }
            if !self.panels[i].popup {
                let ghost shown = drawings_view(out@);
                let d = draw_panel(&self.panels[i], area, true, self.active_popup, self.popup_cursor);
                out.push(d);
                assert(drawings_view(out@) =~= shown.push(self@.drawing(i as int, area, true)));
            }
        }
        match self.active_popup {
            Some(p) => {
                proof {
                    assert(self@.panels[p as int] == self.panels@[p as int]@);
                }
                if self.panels[p].popup {
                    let ghost shown = drawings_view(out@);
                    let d = draw_panel(
                        &self.panels[p],
                        area,
                        true,
                        self.active_popup,
                        self.popup_cursor,
                    );
                    out.push(d);
                    assert(drawings_view(out@) =~= shown.push(self@.drawing(p as int, area, true)));
                }
            },
            None => {},
        }
        assert(drawings_view(out@) =~= self@.draw(area));
        out
    }
}

} // verus!
