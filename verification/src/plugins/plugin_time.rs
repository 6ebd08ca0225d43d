//! The clock: a popup that shows the time in large digits and wanders over
//! the screen.

use figlet_rs::FIGlet;
use rand::Rng;
use vstd::prelude::*;
use vstd::string::*;
use crate::messages::{log_effect, Action, Effect, EffectView, Key, Level};
use crate::plugins::plugins_main::{
    handle_action_gui, handle_action_key_position, handle_gui, key_position, redraw_cmd,
};
use crate::text::{
    chars_of, concat3, join, join_spec, lines, lines_spec, pad_left, pad_left_spec, pad_right,
    pad_right_spec, split, split_spec, words_view,
};
use crate::utils::common::MsgTemplate;
use crate::utils::panel::{
    caculate_position, caculate_position_spec, panel_rect, panel_rect_spec, Line,
    LineStyle, LineView, PanelDrawing, PanelDrawingView, PanelInfo, PanelType, Rect,
};

verus! {

/// The name under which this component is addressed.
pub const MODULE: &'static str = "time";

/// The columns that a digit takes.
pub const DIGIT_WIDTH: usize = 9;

/// The columns that a colon takes.
pub const COLON_WIDTH: usize = 3;

/// The columns of the panel.
pub const PANEL_WIDTH: u16 = 65;

/// The rows of the panel.
pub const PANEL_HEIGHT: u16 = 8;

/// The least number of seconds before the clock moves.
pub const ESCAPE_MIN: u8 = 30;

/// The greatest number of seconds before the clock moves, and the greatest
/// `x` and `y` that it moves to.
pub const ESCAPE_MAX: u8 = 60;

/// The picture of a character in the standard font of FIGlet, lines ended by
/// line feeds; `None` where the font cannot draw the character.
pub uninterp spec fn figlet_text(c: char) -> Option<Seq<char>>;

/// `figlet_rs`: the standard font (`FIGlet::standard`) draws one character
/// (`convert`), and the picture is written out line by line. Which picture
/// comes out is not stated here, only that it depends on the character
/// alone.
#[verifier::external_body]
fn figlet(c: char) -> (out: Option<String>)
    ensures
        out matches Some(t) ==> figlet_text(c) == Some(t@),
        out is None ==> figlet_text(c) is None,
{
    FIGlet::standard().ok()?.convert(&c.to_string()).map(|f| f.to_string())
}

/// `rand`: a number drawn at random from `low` to `high`, both included
/// (`rand::rng().random_range(low..=high)`).
#[verifier::external_body]
fn random_in(low: u16, high: u16) -> (out: u16)
    requires
        low <= high,
    ensures
        low <= out <= high,
{
    rand::rng().random_range(low..=high)
}

/// The lines of the picture of the character at place `i` of the time: a
/// colon left aligned in 3 columns, the first digit of hours, minutes and
/// seconds right aligned in 9 columns, the second left aligned in 9.
pub open spec fn glyph_spec(i: int, c: char, picture: Seq<char>) -> Seq<Seq<char>> {
    let rows = lines_spec(picture);
    Seq::new(
        rows.len(),
        |r: int|
            if c == ':' {
                pad_right_spec(rows[r], COLON_WIDTH as nat)
            } else if i == 0 || i == 3 || i == 6 {
                pad_left_spec(rows[r], DIGIT_WIDTH as nat)
            } else {
                pad_right_spec(rows[r], DIGIT_WIDTH as nat)
            },
    )
}

/// The pictures of the first `upto` characters, those left out that the
/// font cannot draw.
pub open spec fn glyphs_spec(chars: Seq<char>, pictures: Seq<Option<Seq<char>>>, upto: nat) -> Seq<
    Seq<Seq<char>>,
>
    decreases upto,
{
    if upto == 0 {
        Seq::empty()
    } else {
        let before = glyphs_spec(chars, pictures, (upto - 1) as nat);
        match pictures[upto - 1] {
            Some(p) => before.push(glyph_spec(upto - 1, chars[upto - 1], p)),
            None => before,
        }
    }
}

/// Row `r` of the first `upto` pictures, side by side.
pub open spec fn row_spec(glyphs: Seq<Seq<Seq<char>>>, r: int, upto: nat) -> Seq<char>
    decreases upto,
{
    if upto == 0 {
        Seq::empty()
    } else {
        row_spec(glyphs, r, (upto - 1) as nat) + (if r < glyphs[upto - 1].len() {
            glyphs[upto - 1][r]
        } else {
            Seq::empty()
        })
    }
}

/// The rows of the large clock: as many as the first picture has.
pub open spec fn clock_rows(glyphs: Seq<Seq<Seq<char>>>) -> Seq<Seq<char>> {
    if glyphs.len() == 0 {
        Seq::empty()
    } else {
        Seq::new(glyphs[0].len(), |r: int| row_spec(glyphs, r, glyphs.len()))
    }
}

/// The large clock for the characters `chars`, given the picture of each.
pub open spec fn big_clock_of(chars: Seq<char>, pictures: Seq<Option<Seq<char>>>) -> Seq<char> {
    join_spec(clock_rows(glyphs_spec(chars, pictures, chars.len())), "\n"@)
}

/// The large clock for a time.
pub open spec fn big_clock_spec(input: Seq<char>) -> Seq<char> {
    big_clock_of(input, Seq::new(input.len(), |i: int| figlet_text(input[i])))
}

/// The views of a sequence of optional strings.
pub open spec fn pictures_view(v: Seq<Option<String>>) -> Seq<Option<Seq<char>>> {
    Seq::new(
        v.len(),
        |i: int|
            match v[i] {
                Some(s) => Some(s@),
                None => None,
            },
    )
}

/// The views of a sequence of lists of strings.
pub open spec fn glyphs_view(v: Seq<Vec<String>>) -> Seq<Seq<Seq<char>>> {
    Seq::new(v.len(), |i: int| words_view(v[i]@))
}

fn glyph(i: usize, c: char, picture: &str) -> (out: Vec<String>)
    ensures
        words_view(out@) == glyph_spec(i as int, c, picture@),
{
    let rows = lines(picture);
    let ghost spec_rows = lines_spec(picture@);
    let mut out: Vec<String> = Vec::new();
    let mut r: usize = 0;
    while r < rows.len()
        invariant
            r <= rows.len(),
            words_view(rows@) == spec_rows,
            spec_rows == lines_spec(picture@),
            out.len() == r,
            forall|k: int|
                0 <= k < r ==> (#[trigger] out@[k])@ == glyph_spec(i as int, c, picture@)[k],
        decreases rows.len() - r,
    {
        proof {
            assert(spec_rows[r as int] == rows@[r as int]@);
        }
        let row = rows[r].as_str();
        let padded = if c == ':' {
            pad_right(row, COLON_WIDTH)
        } else if i == 0 || i == 3 || i == 6 {
            pad_left(row, DIGIT_WIDTH)
        } else {
            pad_right(row, DIGIT_WIDTH)
        };
        out.push(padded);
        r += 1;
    }
    assert(words_view(out@) =~= glyph_spec(i as int, c, picture@));
    out
}

/// Sets the large clock, given the characters of the time and the picture
/// of each in the font (see [`big_clock_of`]).
pub fn big_clock_from(chars: &Vec<char>, pictures: &Vec<Option<String>>) -> (out: String)
    requires
        chars.len() == pictures.len(),
    ensures
        out@ == big_clock_of(chars@, pictures_view(pictures@)),
{
    let ghost pv = pictures_view(pictures@);
    let mut glyphs: Vec<Vec<String>> = Vec::new();
    let mut i: usize = 0;
    assert(glyphs_view(glyphs@) =~= glyphs_spec(chars@, pv, 0));
    while i < chars.len()
        invariant
            i <= chars.len(),
            chars.len() == pictures.len(),
            pv == pictures_view(pictures@),
            glyphs_view(glyphs@) == glyphs_spec(chars@, pv, i as nat),
        decreases chars.len() - i,
    {
        let ghost before = glyphs_view(glyphs@);
        match &pictures[i] {
            Some(p) => {
                let g = glyph(i, chars[i], p.as_str());
                let ghost gv = words_view(g@);
                glyphs.push(g);
                assert(glyphs_view(glyphs@) =~= before.push(gv));
            },
            None => {},
        }
        i += 1;
    }
    let ghost gs = glyphs_view(glyphs@);
    let mut rows: Vec<String> = Vec::new();
    if glyphs.len() > 0 {
        let count: usize = glyphs[0].len();
        proof {
            assert(gs[0] == words_view(glyphs@[0]@));
        }
        let mut r: usize = 0;
        while r < count
            invariant
                r <= count,
                glyphs.len() > 0,
                gs == glyphs_view(glyphs@),
                count == gs[0].len(),
                rows.len() == r,
                forall|k: int|
                    0 <= k < r ==> (#[trigger] rows@[k])@ == row_spec(gs, k, gs.len()),
            decreases count - r,
        {
            let mut row = String::new();
            let mut g: usize = 0;
            while g < glyphs.len()
                invariant
                    g <= glyphs.len(),
                    gs == glyphs_view(glyphs@),
                    row@ == row_spec(gs, r as int, g as nat),
                decreases glyphs.len() - g,
            {
                proof {
                    assert(gs[g as int] == words_view(glyphs@[g as int]@));
                }
                if r < glyphs[g].len() {
                    proof {
                        assert(gs[g as int][r as int] == glyphs@[g as int]@[r as int]@);
                    }
                    row.append(glyphs[g][r].as_str());
                } else {
                    assert(row@ + Seq::<char>::empty() =~= row@);
                }
                g += 1;
            }
            rows.push(row);
            r += 1;
        }
    }
    proof {
        assert(words_view(rows@) =~= clock_rows(gs));
    }
    join(&rows, "\n")
}

/// Sets the large clock for a time such as `12:34:56` (see
/// [`big_clock_spec`]).
pub fn big_clock(input: &str) -> (out: String)
    ensures
        out@ == big_clock_spec(input@),
{
    let chars = chars_of(input);
    let mut pictures: Vec<Option<String>> = Vec::new();
    let mut i: usize = 0;
    assert(pictures_view(pictures@) =~= Seq::new(0, |k: int| figlet_text(chars@[k])));
    while i < chars.len()
        invariant
            i <= chars.len(),
            pictures.len() == i,
            pictures_view(pictures@) == Seq::new(i as nat, |k: int| figlet_text(chars@[k])),
        decreases chars.len() - i,
    {
        let ghost before = pictures_view(pictures@);
        let p = figlet(chars[i]);
        let ghost shown: Option<Seq<char>> = if p is Some {
            Some(p->0@)
        } else {
            None
        };
        pictures.push(p);
        proof {
            assert forall|k: int| 0 <= k < i + 1 implies pictures_view(pictures@)[k]
                == figlet_text(chars@[k]) by {
                if k < i {
                    assert(pictures_view(pictures@)[k] == before[k]);
                } else {
                    assert(pictures_view(pictures@)[k] == shown);
                }
            }
            assert(pictures_view(pictures@) =~= Seq::new(
                (i + 1) as nat,
                |k: int| figlet_text(chars@[k]),
            ));
        }
        i += 1;
    }
    proof {
        assert(pictures_view(pictures@) =~= Seq::new(
            input@.len(),
            |k: int| figlet_text(input@[k]),
        ));
    }
    big_clock_from(&chars, &pictures)
}

/// What the caller is to do for the clock.
#[derive(Debug)]
pub enum Output {
    /// Perform an effect on the bus.
    Bus(Effect),
    /// Send the time to the clock every second, with [`output_update`],
    /// until [`PluginUnit::is_open`] says that the clock is closed.
    Tick,
}

/// An [`Output`] as a plain value.
pub enum OutputView {
    Bus(EffectView),
    Tick,
}

impl View for Output {
    type V = OutputView;

    open spec fn view(&self) -> OutputView {
        match *self {
            Output::Bus(e) => OutputView::Bus(e@),
            Output::Tick => OutputView::Tick,
        }
    }
}

/// The views of a sequence of outputs.
pub open spec fn outputs_view(v: Seq<Output>) -> Seq<OutputView> {
    Seq::new(v.len(), |i: int| v[i]@)
}

/// The clock.
#[derive(Debug)]
pub struct PluginUnit {
    output: String,
    panel_info: PanelInfo,
    open: bool,
    escape_secs: u8,
}

/// A [`PluginUnit`] as a plain value.
pub struct UnitView {
    pub output: Seq<char>,
    pub panel_info: PanelInfo,
    pub open: bool,
    pub escape_secs: u8,
}

/// A state of the clock together with what the caller is to do.
pub struct Outcome {
    pub state: UnitView,
    pub outputs: Seq<OutputView>,
}

/// The output that logs `msg` for information, in the name of the clock.
pub open spec fn info(msg: Seq<char>) -> OutputView {
    OutputView::Bus(log_effect(Level::Info, MODULE@, msg))
}

/// The output that logs `msg` as a warning, in the name of the clock.
pub open spec fn warning(msg: Seq<char>) -> OutputView {
    OutputView::Bus(log_effect(Level::Warn, MODULE@, msg))
}

/// The output that puts the command `cmd` on the bus.
pub open spec fn send(cmd: Seq<char>) -> OutputView {
    OutputView::Bus(EffectView::Send { origin: MODULE@, cmd })
}

impl UnitView {
    /// The clock when it starts: closed.
    pub open spec fn start() -> UnitView {
        UnitView {
            output: Seq::empty(),
            panel_info: PanelInfo { panel_type: PanelType::Normal, x: 0, y: 0, w: 0, h: 0 },
            open: false,
            escape_secs: 0,
        }
    }

    /// The seconds counted since the clock last moved are fewer than the
    /// most that it waits.
    pub open spec fn wf(self) -> bool {
        self.escape_secs < ESCAPE_MAX
    }

    /// This state with the given outputs.
    pub open spec fn unchanged(self, outputs: Seq<OutputView>) -> Outcome {
        Outcome { state: self, outputs }
    }

    /// `output_update <time>`: the clock shows the time. It counts the
    /// seconds, and when `change` of them have passed it moves to the place
    /// `(x, y)` and counts anew. Then the panels are drawn.
    pub open spec fn handle_output_update(
        self,
        parts: Seq<Seq<char>>,
        change: u8,
        x: u16,
        y: u16,
    ) -> Outcome {
        if parts.len() <= 3 {
            self.unchanged(Seq::empty())
        } else if self.escape_secs + 1 >= change {
            Outcome {
                state: UnitView {
                    output: parts[3],
                    panel_info: PanelInfo { x, y, ..self.panel_info },
                    escape_secs: 0,
                    ..self
                },
                outputs: seq![send(redraw_cmd())],
            }
        } else {
            Outcome {
                state: UnitView {
                    output: parts[3],
                    escape_secs: (self.escape_secs + 1) as u8,
                    ..self
                },
                outputs: seq![send(redraw_cmd())],
            }
        }
    }

    /// `key <code>`: one key closes the clock, four keys move it.
    pub open spec fn handle_key(self, parts: Seq<Seq<char>>) -> Outcome {
        if parts.len() <= 3 {
            self.unchanged(
                seq![
                    warning(
                        MsgTemplate::MissingParameters.format_spec(
                            "<key>"@,
                            "key"@,
                            join_spec(parts, " "@),
                        ),
                    ),
                ],
            )
        } else {
            match Key::named(parts[3]) {
                None => self.unchanged(
                    seq![
                        warning(
                            MsgTemplate::InvalidParameters.format_spec(
                                "<key>"@,
                                "key"@,
                                join_spec(parts, " "@),
                            ),
                        ),
                    ],
                ),
                Some(key) => match key {
                    Key::ControlX => Outcome {
                        state: UnitView { open: false, ..self },
                        outputs: seq![send("p plugins popup"@), send(redraw_cmd())],
                    },
                    Key::AltUp | Key::AltDown | Key::AltLeft | Key::AltRight => {
                        let p = self.panel_info;
                        let place = key_position(key, p.x, p.y, p.w, p.h);
                        Outcome {
                            state: UnitView {
                                panel_info: PanelInfo {
                                    x: place.0,
                                    y: place.1,
                                    w: place.2,
                                    h: place.3,
                                    ..p
                                },
                                ..self
                            },
                            outputs: seq![send(redraw_cmd())],
                        }
                    },
                    _ => self.unchanged(Seq::empty()),
                },
            }
        }
    }

    /// What the clock does with a command. `change`, `x` and `y` matter to
    /// `output_update` only (see [`UnitView::handle_output_update`]).
    pub open spec fn step(self, action: Action, parts: Seq<Seq<char>>, change: u8, x: u16, y: u16) -> Outcome {
        match action {
            Action::Help => self.unchanged(seq![info("help"@), info("  open"@)]),
            Action::Show => self.unchanged(seq![info("show"@)]),
            Action::Gui => match handle_gui(MODULE@, parts) {
                Ok(pair) => Outcome {
                    state: UnitView { panel_info: pair.0, ..self },
                    outputs: seq![OutputView::Bus(pair.1)],
                },
                Err(w) => self.unchanged(seq![OutputView::Bus(w)]),
            },
            Action::Open => Outcome {
                state: UnitView { open: true, ..self },
                outputs: seq![info("open"@), send("p plugins popup time"@), OutputView::Tick],
            },
            Action::Key => self.handle_key(parts),
            Action::OutputUpdate => self.handle_output_update(parts, change, x, y),
            _ => self.unchanged(
                seq![warning(MsgTemplate::UnsupportedAction.format_spec(action.name(), ""@, ""@))],
            ),
        }
    }

    /// How the clock is drawn: in a panel of fixed size at its place, with
    /// the large clock as content.
    pub open spec fn draw(self, area: Rect, active: bool) -> PanelDrawingView {
        let p = self.panel_info;
        let place = caculate_position_spec(area, p.x, p.y, p.w, p.h);
        let rows = split_spec(big_clock_spec(self.output), '\n');
        PanelDrawingView {
            area: panel_rect_spec(place.0, place.1, PANEL_WIDTH, PANEL_HEIGHT, area),
            title: MODULE@,
            active,
            scroll: 0,
            lines: Seq::new(
                rows.len(),
                |i: int| LineView { text: rows[i], style: LineStyle::Plain },
            ),
            cursor: None,
        }
    }
}

impl View for PluginUnit {
    type V = UnitView;

    closed spec fn view(&self) -> UnitView {
        UnitView {
            output: self.output@,
            panel_info: self.panel_info,
            open: self.open,
            escape_secs: self.escape_secs,
        }
    }
}

fn push_output(outputs: &mut Vec<Output>, o: Output)
    ensures
        outputs_view(final(outputs)@) == outputs_view(old(outputs)@).push(o@),
{
    outputs.push(o);
    assert(outputs_view(outputs@) =~= outputs_view(old(outputs)@).push(o@));
}

fn one(o: Output) -> (out: Vec<Output>)
    ensures
        outputs_view(out@) == seq![o@],
{
    let mut out: Vec<Output> = Vec::new();
    push_output(&mut out, o);
    assert(outputs_view(out@) =~= seq![o@]);
    out
}

fn two(a: Output, b: Output) -> (out: Vec<Output>)
    ensures
        outputs_view(out@) == seq![a@, b@],
{
    let mut out: Vec<Output> = Vec::new();
    push_output(&mut out, a);
    push_output(&mut out, b);
    assert(outputs_view(out@) =~= seq![a@, b@]);
    out
}

fn none() -> (out: Vec<Output>)
    ensures
        outputs_view(out@) == Seq::<OutputView>::empty(),
{
    let out: Vec<Output> = Vec::new();
    assert(outputs_view(out@) =~= Seq::<OutputView>::empty());
    out
}

fn info_output(msg: &str) -> (out: Output)
    ensures
        out@ == info(msg@),
{
    Output::Bus(Effect::info(MODULE, msg))
}

fn warn_output(msg: &str) -> (out: Output)
    ensures
        out@ == warning(msg@),
{
    Output::Bus(Effect::warn(MODULE, msg))
}

fn send_output(cmd: &str) -> (out: Output)
    ensures
        out@ == send(cmd@),
{
    Output::Bus(Effect::cmd(MODULE, cmd))
}

/// The command that sends the time `msg` to the clock.
pub fn output_update(msg: &str) -> (out: Effect)
    ensures
        out@ == (EffectView::Send {
            origin: MODULE@,
            cmd: "p time output_update '"@ + msg@ + "'"@,
        }),
{
    Effect::cmd(MODULE, concat3("p time output_update '", msg, "'").as_str())
}

impl PluginUnit {
    /// Whether the clock is in order (see [`UnitView::wf`]).
    pub open spec fn wf(&self) -> bool {
        self@.wf()
    }

    /// The clock when it starts.
    pub fn new() -> (out: PluginUnit)
        ensures
            out@ == UnitView::start(),
            out.wf(),
    {
        PluginUnit {
            output: String::new(),
            panel_info: PanelInfo::new(PanelType::Normal),
            open: false,
            escape_secs: 0,
        }
    }

    /// The panel of the clock.
    pub fn panel_info(&self) -> (out: PanelInfo)
        ensures
            out == self@.panel_info,
    {
        self.panel_info
    }

    /// Whether the clock is open.
    pub fn is_open(&self) -> (out: bool)
        ensures
            out == self@.open,
    {
        self.open
    }

    /// The time that the clock shows.
    pub fn output(&self) -> (out: &str)
        ensures
            out@ == self@.output,
    {
        self.output.as_str()
    }

    fn handle_action_key(&mut self, cmd_parts: &Vec<String>) -> (out: Vec<Output>)
        ensures
            final(self)@ == old(self)@.handle_key(words_view(cmd_parts@)).state,
            outputs_view(out@) == old(self)@.handle_key(words_view(cmd_parts@)).outputs,
    {
        if cmd_parts.len() <= 3 {
            let line = join(cmd_parts, " ");
            return one(
                warn_output(
                    MsgTemplate::MissingParameters.format("<key>", "key", line.as_str()).as_str(),
                ),
            );
        }
        match Key::parse(cmd_parts[3].as_str()) {
            None => {
                let line = join(cmd_parts, " ");
                one(
                    warn_output(
                        MsgTemplate::InvalidParameters.format(
                            "<key>",
                            "key",
                            line.as_str(),
                        ).as_str(),
                    ),
                )
            },
            Some(key) => match key {
                Key::ControlX => {
                    self.open = false;
                    two(send_output("p plugins popup"), send_output("p plugins redraw"))
                },
                Key::AltUp | Key::AltDown | Key::AltLeft | Key::AltRight => {
                    let p = self.panel_info;
                    let moved = handle_action_key_position(MODULE, key, p.x, p.y, p.w, p.h);
                    let place = moved.0;
                    self.panel_info = PanelInfo {
                        panel_type: p.panel_type,
                        x: place.0,
                        y: place.1,
                        w: place.2,
                        h: place.3,
                    };
                    one(Output::Bus(moved.1))
                },
                _ => none(),
            },
        }
    }

    /// Handles a command, given the numbers that decide when and where the
    /// clock moves (see [`UnitView::step`]).
    pub fn handle_action_with(
        &mut self,
        action: Action,
        cmd_parts: &Vec<String>,
        change: u8,
        x: u16,
        y: u16,
    ) -> (out: Vec<Output>)
        requires
            old(self).wf(),
            change <= ESCAPE_MAX,
        ensures
            final(self).wf(),
            final(self)@ == old(self)@.step(action, words_view(cmd_parts@), change, x, y).state,
            outputs_view(out@) == old(self)@.step(
                action,
                words_view(cmd_parts@),
                change,
                x,
                y,
            ).outputs,
    {
        match action {
            Action::Help => two(info_output("help"), info_output("  open")),
            Action::Show => one(info_output("show")),
            Action::Gui => match handle_action_gui(MODULE, cmd_parts) {
                Ok(pair) => {
                    self.panel_info = pair.0;
                    one(Output::Bus(pair.1))
                },
                Err(w) => one(Output::Bus(w)),
            },
            Action::Open => {
                self.open = true;
                let mut out: Vec<Output> = Vec::new();
                push_output(&mut out, info_output("open"));
                push_output(&mut out, send_output("p plugins popup time"));
                push_output(&mut out, Output::Tick);
                assert(outputs_view(out@) =~= seq![
                    info("open"@),
                    send("p plugins popup time"@),
                    OutputView::Tick,
                ]);
                out
            },
            Action::Key => self.handle_action_key(cmd_parts),
            Action::OutputUpdate => {
                if cmd_parts.len() <= 3 {
                    return none();
                }
                self.output = cmd_parts[3].clone();
                if self.escape_secs + 1 >= change {
                    self.panel_info = PanelInfo {
                        panel_type: self.panel_info.panel_type,
                        x,
                        y,
                        w: self.panel_info.w,
                        h: self.panel_info.h,
                    };
                    self.escape_secs = 0;
                } else {
                    self.escape_secs = self.escape_secs + 1;
                }
                one(send_output("p plugins redraw"))
            },
            _ => one(
                warn_output(
                    MsgTemplate::UnsupportedAction.format(action.as_ref(), "", "").as_str(),
                ),
            ),
        }
    }

    /// Handles a command. For `output_update`, the clock moves after a
    /// number of seconds drawn at random from 30 to 60, to a place whose
    /// `x` and `y` are drawn at random from 0 to 60; all else is as
    /// [`UnitView::step`] says.
    pub fn handle_action(&mut self, action: Action, cmd_parts: &Vec<String>) -> (out: Vec<Output>)
        requires
            old(self).wf(),
        ensures
            final(self).wf(),
            exists|change: u8, x: u16, y: u16|
                {
                    &&& ESCAPE_MIN <= change <= ESCAPE_MAX
                    &&& x <= ESCAPE_MAX
                    &&& y <= ESCAPE_MAX
                    &&& final(self)@ == (#[trigger] old(self)@.step(
                        action,
                        words_view(cmd_parts@),
                        change,
                        x,
                        y,
                    )).state
                    &&& outputs_view(out@) == old(self)@.step(
                        action,
                        words_view(cmd_parts@),
                        change,
                        x,
                        y,
                    ).outputs
                },
    {
        let change = random_in(ESCAPE_MIN as u16, ESCAPE_MAX as u16) as u8;
        let (x, y) = if self.escape_secs + 1 >= change {
            (random_in(0, ESCAPE_MAX as u16), random_in(0, ESCAPE_MAX as u16))
        } else {
            (0, 0)
        };
        self.handle_action_with(action, cmd_parts, change, x, y)
    }

    /// Says how the clock is drawn in a terminal that covers `area` (see
    /// [`UnitView::draw`]).
    pub fn draw(&self, area: Rect, active: bool) -> (out: PanelDrawing)
        ensures
            out@ == self@.draw(area, active),
    {
        let p = self.panel_info;
        let place = caculate_position(area, p.x, p.y, p.w, p.h);
        let clock = big_clock(self.output.as_str());
        let texts = split(clock.as_str(), '\n');
        let ghost rows = split_spec(big_clock_spec(self@.output), '\n');
        let mut lines: Vec<Line> = Vec::new();
        let mut i: usize = 0;
        while i < texts.len()
            invariant
                i <= texts.len(),
                words_view(texts@) == rows,
                lines.len() == i,
                forall|j: int|
                    0 <= j < i ==> (#[trigger] lines@[j])@ == (LineView {
                        text: rows[j],
                        style: LineStyle::Plain,
                    }),
            decreases texts.len() - i,
        {
            proof {
                assert(rows[i as int] == texts@[i as int]@);
            }
            lines.push(Line { text: texts[i].clone(), style: LineStyle::Plain });
            i += 1;
        }
        let out = PanelDrawing {
            area: panel_rect(place.0, place.1, PANEL_WIDTH, PANEL_HEIGHT, area),
            title: String::from_str(MODULE),
            active,
            scroll: 0,
            lines,
            cursor: None,
        };
        proof {
            assert(out@.lines =~= self@.draw(area, active).lines);
        }
        out
    }
}

} // verus!
