//! Panel geometry: percentages of the terminal, and the cells they cover.

use vstd::prelude::*;
use vstd::string::*;
use crate::consts::COMMAND_ROWS;
use crate::text::{
    chars_of, contains_chars, contains_spec, decimal_spec, push_decimal, split_into, split_spec,
    words_view,
};

verus! {

/// Whether a panel sits among the others or lies on top of them.
#[derive(Clone, Copy, Debug, PartialEq, Eq, Structural)]
pub enum PanelType {
    Normal,
    Popup,
}

impl PanelType {
    /// The word that writes this panel type in command text.
    pub open spec fn name(self) -> Seq<char> {
        match self {
            PanelType::Normal => "normal"@,
            PanelType::Popup => "popup"@,
        }
    }

    /// The panel type that the word `s` writes, if any. The match is exact: case counts.
    pub open spec fn named(s: Seq<char>) -> Option<PanelType> {
        if s == "normal"@ {
            Some(PanelType::Normal)
        } else if s == "popup"@ {
            Some(PanelType::Popup)
        } else {
            None
        }
    }

    /// The word for this panel type.
    pub fn as_ref(&self) -> (out: &'static str)
        ensures
            out@ == self.name(),
    {
        match self {
            PanelType::Normal => "normal",
            PanelType::Popup => "popup",
        }
    }

    /// The word for this panel type, as an owned string.
    pub fn to_string(&self) -> (out: String)
        ensures
            out@ == self.name(),
    {
        String::from_str(self.as_ref())
    }

    /// Reads a panel type from its word.
    pub fn parse(s: &str) -> (out: Option<PanelType>)
        ensures
            out == PanelType::named(s@),
    {
        if s.eq("normal") {
            Some(PanelType::Normal)
        } else if s.eq("popup") {
            Some(PanelType::Popup)
        } else {
            None
        }
    }

    /// Writing a panel type and reading the word back gives the same panel type.
    pub proof fn lemma_named_name(x: PanelType)
        ensures
            PanelType::named(x.name()) == Some(x),
    {
        reveal_strlit("normal");
        reveal_strlit("popup");
        assert("normal"@.len() == 6);
        assert("popup"@.len() == 5);
    }

    /// A word that reads as a panel type is the word that writes it.
    pub proof fn lemma_name_named(s: Seq<char>)
        requires
            PanelType::named(s) is Some,
        ensures
            PanelType::named(s)->0.name() == s,
    {
    }
}


/// Kind and place of a panel. `x`, `y`, `w` and `h` are percentages of the
/// usable terminal area.
#[derive(Clone, Copy, Debug, PartialEq, Eq, Structural)]
pub struct PanelInfo {
    pub panel_type: PanelType,
    pub x: u16,
    pub y: u16,
    pub w: u16,
    pub h: u16,
}

impl PanelInfo {
    /// A panel of the given kind that covers nothing yet.
    pub fn new(panel_type: PanelType) -> (out: PanelInfo)
        ensures
            out == (PanelInfo { panel_type, x: 0, y: 0, w: 0, h: 0 }),
    {
        PanelInfo { panel_type, x: 0, y: 0, w: 0, h: 0 }
    }

    /// Whether all four numbers are percentages: at most 100.
    pub open spec fn in_percent(self) -> bool {
        self.x <= 100 && self.y <= 100 && self.w <= 100 && self.h <= 100
    }
}

/// A rectangle of terminal cells.
#[derive(Clone, Copy, Debug, PartialEq, Eq, Structural)]
pub struct Rect {
    pub x: u16,
    pub y: u16,
    pub width: u16,
    pub height: u16,
}

/// `a + b`, or the largest `u16` where that does not fit.
pub open spec fn add_sat(a: u16, b: u16) -> u16 {
    if a + b > u16::MAX {
        u16::MAX
    } else {
        (a + b) as u16
    }
}

/// `a - b`, or 0 where `b` is the larger.
pub open spec fn sub_sat(a: u16, b: u16) -> u16 {
    if a < b {
        0
    } else {
        (a - b) as u16
    }
}

/// The smaller of two numbers.
pub open spec fn min16(a: u16, b: u16) -> u16 {
    if a <= b {
        a
    } else {
        b
    }
}

/// The rectangle asked for, moved to the origin of `area` and cut where it
/// would leave `area` on the right or at the bottom.
pub open spec fn panel_rect_spec(x: u16, y: u16, width: u16, height: u16, area: Rect) -> Rect {
    let left = add_sat(area.x, x);
    let top = add_sat(area.y, y);
    Rect {
        x: left,
        y: top,
        width: min16(width, sub_sat(area.width, (left - area.x) as u16)),
        height: min16(height, sub_sat(area.height, (top - area.y) as u16)),
    }
}

/// Places a rectangle given relative to `area`, and clamps it to `area`.
pub fn panel_rect(x: u16, y: u16, width: u16, height: u16, area: Rect) -> (out: Rect)
    ensures
        out == panel_rect_spec(x, y, width, height, area),
        out.x >= area.x && out.y >= area.y,
        out.width == 0 || out.x + out.width <= area.x + area.width,
        out.height == 0 || out.y + out.height <= area.y + area.height,
{
    let left: u16 = if x > u16::MAX - area.x {
        u16::MAX
    } else {
        area.x + x
    };
    let top: u16 = if y > u16::MAX - area.y {
        u16::MAX
    } else {
        area.y + y
    };
    let room_w: u16 = if area.width < left - area.x {
        0
    } else {
        area.width - (left - area.x)
    };
    let room_h: u16 = if area.height < top - area.y {
        0
    } else {
        area.height - (top - area.y)
    };
    Rect {
        x: left,
        y: top,
        width: if width <= room_w {
            width
        } else {
            room_w
        },
        height: if height <= room_h {
            height
        } else {
            room_h
        },
    }
}

/// `percent` hundredths of `total`, rounded to the nearest whole number, a
/// half rounded up.
pub open spec fn round_percent(total: int, percent: int) -> int {
    (total * percent + 50) / 100
}

/// [`round_percent`] in cells: the largest `u16` where the result does not fit.
pub open spec fn percent_of(total: u16, percent: u16) -> u16 {
    if round_percent(total as int, percent as int) > u16::MAX {
        u16::MAX
    } else {
        round_percent(total as int, percent as int) as u16
    }
}

/// The rows that panels may use: all but the rows kept for the command panel.
pub open spec fn usable_height(height: u16) -> u16 {
    sub_sat(height, COMMAND_ROWS)
}

/// The cells that the percentages `x`, `y`, `w`, `h` stand for in a
/// terminal of the size of `area`.
pub open spec fn caculate_position_spec(area: Rect, x: u16, y: u16, w: u16, h: u16) -> (
    u16,
    u16,
    u16,
    u16,
) {
    (
        percent_of(area.width, x),
        percent_of(usable_height(area.height), y),
        percent_of(area.width, w),
        percent_of(usable_height(area.height), h),
    )
}

/// The rounded result is the whole number nearest to `total * percent / 100`.
pub proof fn lemma_round_percent_nearest(total: int, percent: int)
    requires
        0 <= total,
        0 <= percent,
    ensures
        100 * round_percent(total, percent) - 50 <= total * percent < 100 * round_percent(
            total,
            percent,
        ) + 50,
{
    assert(0 <= total * percent) by (nonlinear_arith)
        requires
            0 <= total,
            0 <= percent,
    ;
}

/// No percentage up to 100 gives more cells than there are.
pub proof fn lemma_percent_of_bounded(total: u16, percent: u16)
    requires
        percent <= 100,
    ensures
        percent_of(total, percent) <= total,
        percent_of(total, percent) == round_percent(total as int, percent as int),
        percent_of(total, 0) == 0,
        percent_of(total, 100) == total,
{
    assert(0 <= total * percent <= total * 100) by (nonlinear_arith)
        requires
            0 <= total,
            0 <= percent <= 100,
    ;
}

fn scale(total: u16, percent: u16) -> (out: u16)
    ensures
        out == percent_of(total, percent),
{
    assert(total * percent <= 0xffff * 0xffff) by (nonlinear_arith)
        requires
            total <= 0xffff,
            percent <= 0xffff,
    ;
    let product: u64 = (total as u64) * (percent as u64);
    let rounded: u64 = (product + 50) / 100;
    if rounded > 0xffff {
        0xffff
    } else {
        rounded as u16
    }
}

/// Turns percentages into cells (see [`caculate_position_spec`]).
pub fn caculate_position(area: Rect, x: u16, y: u16, w: u16, h: u16) -> (out: (u16, u16, u16, u16))
    ensures
        out == caculate_position_spec(area, x, y, w, h),
{
    let width: u16 = area.width;
    let height: u16 = if area.height < COMMAND_ROWS {
        0
    } else {
        area.height - COMMAND_ROWS
    };
    (scale(width, x), scale(height, y), scale(width, w), scale(height, h))
}

/// How a line of panel content is shown.
#[derive(Clone, Copy, Debug, PartialEq, Eq, Structural)]
pub enum LineStyle {
    /// In the colour of the panel.
    Plain,
    /// As a warning: yellow.
    Warn,
    /// As an error: red.
    Error,
}

/// One line of panel content.
#[derive(Debug)]
pub struct Line {
    pub text: String,
    pub style: LineStyle,
}

/// A [`Line`] as a plain value.
pub struct LineView {
    pub text: Seq<char>,
    pub style: LineStyle,
}

impl View for Line {
    type V = LineView;

    open spec fn view(&self) -> LineView {
        LineView { text: self.text@, style: self.style }
    }
}

/// The views of a sequence of lines.
pub open spec fn lines_view(v: Seq<Line>) -> Seq<LineView> {
    Seq::new(v.len(), |i: int| v[i]@)
}

/// The style of a line: that of a warning where it holds `warn_mark`, else
/// that of an error where it holds `error_mark`, else plain.
pub open spec fn line_style(text: Seq<char>, warn_mark: Seq<char>, error_mark: Seq<char>) -> LineStyle {
    if contains_spec(text, warn_mark) {
        LineStyle::Warn
    } else if contains_spec(text, error_mark) {
        LineStyle::Error
    } else {
        LineStyle::Plain
    }
}

/// The lines of all entries in order: an entry that holds line feeds gives
/// several lines.
pub open spec fn lines_of(output: Seq<Seq<char>>) -> Seq<Seq<char>>
    decreases output.len(),
{
    if output.len() == 0 {
        Seq::empty()
    } else {
        lines_of(output.drop_last()) + split_spec(output.last(), '\n')
    }
}

/// The lines of all entries, each with its style.
pub open spec fn styled_lines_spec(
    output: Seq<Seq<char>>,
    warn_mark: Seq<char>,
    error_mark: Seq<char>,
) -> Seq<LineView> {
    let lines = lines_of(output);
    Seq::new(
        lines.len(),
        |i: int| LineView { text: lines[i], style: line_style(lines[i], warn_mark, error_mark) },
    )
}

/// Splits the entries into lines and gives each line its style.
pub fn styled_lines(output: &Vec<String>, warn_mark: &str, error_mark: &str) -> (out: Vec<Line>)
    ensures
        lines_view(out@) == styled_lines_spec(words_view(output@), warn_mark@, error_mark@),
{
    let mut all: Vec<String> = Vec::new();
    let mut i: usize = 0;
    assert(words_view(all@) =~= lines_of(words_view(output@).take(0)));
    while i < output.len()
        invariant
            i <= output.len(),
            words_view(all@) == lines_of(words_view(output@).take(i as int)),
        decreases output.len() - i,
    {
        split_into(&mut all, output[i].as_str(), '\n');
        proof {
            let w = words_view(output@);
            assert(w.take(i + 1).drop_last() == w.take(i as int));
            assert(w.take(i + 1).last() == output@[i as int]@);
        }
        i += 1;
    }
    assert(words_view(output@).take(output.len() as int) == words_view(output@));
    let warn = chars_of(warn_mark);
    let error = chars_of(error_mark);
    let ghost lines = lines_of(words_view(output@));
    let mut out: Vec<Line> = Vec::new();
    let mut k: usize = 0;
    while k < all.len()
        invariant
            k <= all.len(),
            words_view(all@) == lines,
            warn@ == warn_mark@,
            error@ == error_mark@,
            out.len() == k,
            forall|j: int|
                0 <= j < k ==> (#[trigger] out@[j])@ == (LineView {
                    text: lines[j],
                    style: line_style(lines[j], warn_mark@, error_mark@),
                }),
        decreases all.len() - k,
    {
        let text = all[k].clone();
        let chars = chars_of(text.as_str());
        let style = if contains_chars(&chars, &warn) {
            LineStyle::Warn
        } else if contains_chars(&chars, &error) {
            LineStyle::Error
        } else {
            LineStyle::Plain
        };
        proof {
            assert(lines[k as int] == all@[k as int]@);
        }
        out.push(Line { text, style });
        k += 1;
    }
    assert(lines_view(out@) =~= styled_lines_spec(words_view(output@), warn_mark@, error_mark@));
    out
}

/// The lines of all entries, all of them plain.
pub open spec fn plain_lines_spec(output: Seq<Seq<char>>) -> Seq<LineView> {
    let lines = lines_of(output);
    Seq::new(lines.len(), |i: int| LineView { text: lines[i], style: LineStyle::Plain })
}

/// Splits the entries into lines, all of them plain.
pub fn plain_lines(output: &Vec<String>) -> (out: Vec<Line>)
    ensures
        lines_view(out@) == plain_lines_spec(words_view(output@)),
{
    let mut all: Vec<String> = Vec::new();
    let mut i: usize = 0;
    assert(words_view(all@) =~= lines_of(words_view(output@).take(0)));
    while i < output.len()
        invariant
            i <= output.len(),
            words_view(all@) == lines_of(words_view(output@).take(i as int)),
        decreases output.len() - i,
    {
        split_into(&mut all, output[i].as_str(), '\n');
        proof {
            let w = words_view(output@);
            assert(w.take(i + 1).drop_last() == w.take(i as int));
            assert(w.take(i + 1).last() == output@[i as int]@);
        }
        i += 1;
    }
    assert(words_view(output@).take(output.len() as int) == words_view(output@));
    let ghost lines = lines_of(words_view(output@));
    let mut out: Vec<Line> = Vec::new();
    let mut k: usize = 0;
    while k < all.len()
        invariant
            k <= all.len(),
            words_view(all@) == lines,
            out.len() == k,
            forall|j: int|
                0 <= j < k ==> (#[trigger] out@[j])@ == (LineView {
                    text: lines[j],
                    style: LineStyle::Plain,
                }),
        decreases all.len() - k,
    {
        proof {
            assert(lines[k as int] == all@[k as int]@);
        }
        out.push(Line { text: all[k].clone(), style: LineStyle::Plain });
        k += 1;
    }
    assert(lines_view(out@) =~= plain_lines_spec(words_view(output@)));
    out
}

/// How many entries are scrolled off the top of a panel that is
/// `area_height` rows high, border included, and holds `count` entries:
/// those for which the rows do not suffice. The panel shows its last entries.
pub open spec fn scroll_offset_spec(count: nat, area_height: u16) -> u16 {
    let room = sub_sat(area_height, 3);
    if count <= room {
        0
    } else if count - room > u16::MAX {
        u16::MAX
    } else {
        (count - room) as u16
    }
}

/// The scroll offset of a panel (see [`scroll_offset_spec`]).
pub fn scroll_offset(count: usize, area_height: u16) -> (out: u16)
    ensures
        out == scroll_offset_spec(count as nat, area_height),
{
    let room: u16 = if area_height < 3 {
        0
    } else {
        area_height - 3
    };
    if count <= room as usize {
        0
    } else if count - room as usize > 0xffff {
        0xffff
    } else {
        (count - room as usize) as u16
    }
}

/// All that the terminal needs to show one panel: the cells to clear and to
/// frame, the title on the frame, the style of the frame (that of the active
/// panel, or that of an inactive one), the lines of content with the number
/// of entries scrolled off the top, and where the cursor goes, if this panel
/// places it.
#[derive(Debug)]
pub struct PanelDrawing {
    pub area: Rect,
    pub title: String,
    pub active: bool,
    pub scroll: u16,
    pub lines: Vec<Line>,
    pub cursor: Option<(u16, u16)>,
}

/// A [`PanelDrawing`] as a plain value.
pub struct PanelDrawingView {
    pub area: Rect,
    pub title: Seq<char>,
    pub active: bool,
    pub scroll: u16,
    pub lines: Seq<LineView>,
    pub cursor: Option<(u16, u16)>,
}

impl View for PanelDrawing {
    type V = PanelDrawingView;

    open spec fn view(&self) -> PanelDrawingView {
        PanelDrawingView {
            area: self.area,
            title: self.title@,
            active: self.active,
            scroll: self.scroll,
            lines: lines_view(self.lines@),
            cursor: self.cursor,
        }
    }
}

/// The views of a sequence of drawings.
pub open spec fn drawings_view(v: Seq<PanelDrawing>) -> Seq<PanelDrawingView> {
    Seq::new(v.len(), |i: int| v[i]@)
}

/// The usual drawing of a panel: the given title on the frame, the entries
/// of `output` as lines, the oldest scrolled off where the rows do not
/// suffice, and no cursor.
pub open spec fn drawing_spec(
    cells: Rect,
    title: Seq<char>,
    output: Seq<Seq<char>>,
    warn_mark: Seq<char>,
    error_mark: Seq<char>,
    active: bool,
) -> PanelDrawingView {
    PanelDrawingView {
        area: cells,
        title,
        active,
        scroll: scroll_offset_spec(output.len(), cells.height),
        lines: styled_lines_spec(output, warn_mark, error_mark),
        cursor: None,
    }
}

/// Says how a panel with the given content is drawn into `cells` (see
/// [`drawing_spec`]).
pub fn drawing(
    cells: Rect,
    title: &str,
    output: &Vec<String>,
    warn_mark: &str,
    error_mark: &str,
    active: bool,
) -> (out: PanelDrawing)
    ensures
        out@ == drawing_spec(cells, title@, words_view(output@), warn_mark@, error_mark@, active),
{
    PanelDrawing {
        area: cells,
        title: String::from_str(title),
        active,
        scroll: scroll_offset(output.len(), cells.height),
        lines: styled_lines(output, warn_mark, error_mark),
        cursor: None,
    }
}

/// The cells of a panel whose place is given in percentages, in a terminal
/// that covers `area`.
pub open spec fn cells_spec(info: PanelInfo, area: Rect) -> Rect {
    let p = caculate_position_spec(area, info.x, info.y, info.w, info.h);
    panel_rect_spec(p.0, p.1, p.2, p.3, area)
}

/// The cells of a panel (see [`cells_spec`]).
pub fn cells(info: &PanelInfo, area: Rect) -> (out: Rect)
    ensures
        out == cells_spec(*info, area),
{
    let p = caculate_position(area, info.x, info.y, info.w, info.h);
    panel_rect(p.0, p.1, p.2, p.3, area)
}

impl PanelInfo {
    /// The panel as `{:?}` prints it.
    pub open spec fn debug_spec(self) -> Seq<char> {
        "PanelInfo { panel_type: "@ + (match self.panel_type {
            PanelType::Normal => "Normal"@,
            PanelType::Popup => "Popup"@,
        }) + ", x: "@ + decimal_spec(self.x as nat) + ", y: "@ + decimal_spec(self.y as nat)
            + ", w: "@ + decimal_spec(self.w as nat) + ", h: "@ + decimal_spec(self.h as nat)
            + " }"@
    }

    /// The panel in one line, for the log.
    pub fn debug_string(&self) -> (out: String)
        ensures
            out@ == self.debug_spec(),
    {
        let mut out = String::from_str("PanelInfo { panel_type: ");
        match self.panel_type {
            PanelType::Normal => out.append("Normal"),
            PanelType::Popup => out.append("Popup"),
        }
        out.append(", x: ");
        push_decimal(&mut out, self.x as u64);
        out.append(", y: ");
        push_decimal(&mut out, self.y as u64);
        out.append(", w: ");
        push_decimal(&mut out, self.w as u64);
        out.append(", h: ");
        push_decimal(&mut out, self.h as u64);
        out.append(" }");
        out
    }
}

} // verus!
