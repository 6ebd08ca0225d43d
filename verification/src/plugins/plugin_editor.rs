//! The editor: a popup that shows a file and moves a cursor through it.

use vstd::prelude::*;
use vstd::string::*;
use crate::consts::{NAS_EDITOR_FOLDER, SERVER_IP_NOT_SET};
use crate::messages::{log_effect, Action, Effect, EffectView, Key, Level};
use crate::plugins::plugins_main::{
    handle_action_gui, handle_action_key_position, handle_gui, key_position, redraw_cmd,
};
use crate::text::{
    concat, concat3, join, join_spec, len16, lines, lines_spec, str_len16, words_view,
};
use crate::utils::common::{list_files_lines, list_files_spec, MsgTemplate};
use crate::utils::nas::{FileMeta, FileMetaView, FolderMeta, FolderMetaView};
use crate::text::{less, lex_lt};
use crate::utils::panel::{
    add_sat, caculate_position, caculate_position_spec, cells_spec, panel_rect, plain_lines,
    plain_lines_spec, scroll_offset, scroll_offset_spec, PanelDrawing, PanelDrawingView,
    PanelInfo, PanelType, Rect,
};

verus! {

/// The name under which this component is addressed.
pub const MODULE: &'static str = "editor";

/// What the caller is to do for the editor.
#[derive(Debug)]
pub enum Output {
    /// Perform an effect on the bus.
    Bus(Effect),
    /// List the files of the folder, then call [`PluginUnit::listed`].
    ListFiles { folder: String },
    /// Open the file, creating it where it does not exist, and read it; then
    /// call [`PluginUnit::opened`].
    OpenFile { path: String },
    /// Remove the file, then call [`PluginUnit::removed`].
    RemoveFile { path: String },
    /// Ask the server to remove its copy of the file.
    PostRemove { filename: String },
    /// Bring the folder and the server's copy of it into line: compare the
    /// two, then do what [`sync_plan`] says.
    Sync { folder: String },
    /// Send the file at `path` to the server, under the same path.
    Upload { path: String },
    /// Fetch the file at `path` from the server.
    Download { path: String },
}

/// An [`Output`] as a plain value.
pub enum OutputView {
    Bus(EffectView),
    ListFiles { folder: Seq<char> },
    OpenFile { path: Seq<char> },
    RemoveFile { path: Seq<char> },
    PostRemove { filename: Seq<char> },
    Sync { folder: Seq<char> },
    Upload { path: Seq<char> },
    Download { path: Seq<char> },
}

impl View for Output {
    type V = OutputView;

    open spec fn view(&self) -> OutputView {
        match *self {
            Output::Bus(e) => OutputView::Bus(e@),
            Output::ListFiles { folder } => OutputView::ListFiles { folder: folder@ },
            Output::OpenFile { path } => OutputView::OpenFile { path: path@ },
            Output::RemoveFile { path } => OutputView::RemoveFile { path: path@ },
            Output::PostRemove { filename } => OutputView::PostRemove { filename: filename@ },
            Output::Sync { folder } => OutputView::Sync { folder: folder@ },
            Output::Upload { path } => OutputView::Upload { path: path@ },
            Output::Download { path } => OutputView::Download { path: path@ },
        }
    }
}

/// The views of a sequence of outputs.
pub open spec fn outputs_view(v: Seq<Output>) -> Seq<OutputView> {
    Seq::new(v.len(), |i: int| v[i]@)
}

/// How the opening of a file ended.
#[derive(Debug)]
pub enum Opened {
    /// The file was read: this is what it holds.
    Content(String),
    /// The file could not be opened; the text says why.
    OpenFailed(String),
    /// The file could not be read.
    ReadFailed,
}

/// An [`Opened`] as a plain value.
pub enum OpenedView {
    Content(Seq<char>),
    OpenFailed(Seq<char>),
    ReadFailed,
}

impl View for Opened {
    type V = OpenedView;

    open spec fn view(&self) -> OpenedView {
        match *self {
            Opened::Content(text) => OpenedView::Content(text@),
            Opened::OpenFailed(error) => OpenedView::OpenFailed(error@),
            Opened::ReadFailed => OpenedView::ReadFailed,
        }
    }
}

/// The editor.
#[derive(Debug)]
pub struct PluginUnit {
    file_name: String,
    output: Vec<String>,
    panel_info: PanelInfo,
    cursor_position: (u16, u16),
}

/// A [`PluginUnit`] as a plain value. The cursor is given as column and line.
pub struct UnitView {
    pub file_name: Seq<char>,
    pub output: Seq<Seq<char>>,
    pub panel_info: PanelInfo,
    pub cursor_position: (u16, u16),
}

/// A state of the editor together with what the caller is to do.
pub struct Outcome {
    pub state: UnitView,
    pub outputs: Seq<OutputView>,
}

/// The output that logs `msg` for information, in the name of the editor.
pub open spec fn info(msg: Seq<char>) -> OutputView {
    OutputView::Bus(log_effect(Level::Info, MODULE@, msg))
}

/// The output that logs `msg` as a warning, in the name of the editor.
pub open spec fn warning(msg: Seq<char>) -> OutputView {
    OutputView::Bus(log_effect(Level::Warn, MODULE@, msg))
}

/// The output that puts the command `cmd` on the bus.
pub open spec fn send(cmd: Seq<char>) -> OutputView {
    OutputView::Bus(EffectView::Send { origin: MODULE@, cmd })
}

/// The warning that the command `action` lacks the parameter `what`.
pub open spec fn missing(what: Seq<char>, action: Seq<char>, parts: Seq<Seq<char>>) -> OutputView {
    warning(MsgTemplate::MissingParameters.format_spec(what, action, join_spec(parts, " "@)))
}

/// The path of the file `file_name` of the editor.
pub open spec fn full_path(file_name: Seq<char>) -> Seq<char> {
    NAS_EDITOR_FOLDER@ + "/"@ + file_name
}

/// `s` without the slashes at its start.
pub open spec fn without_leading_slashes(s: Seq<char>) -> Seq<char>
    decreases s.len(),
{
    if s.len() > 0 && s[0] == '/' {
        without_leading_slashes(s.drop_first())
    } else {
        s
    }
}

impl UnitView {
    /// The editor when it starts: no file is open.
    pub open spec fn start() -> UnitView {
        UnitView {
            file_name: Seq::empty(),
            output: Seq::empty(),
            panel_info: PanelInfo { panel_type: PanelType::Normal, x: 0, y: 0, w: 0, h: 0 },
            cursor_position: (0, 0),
        }
    }

    /// This state with the given outputs.
    pub open spec fn unchanged(self, outputs: Seq<OutputView>) -> Outcome {
        Outcome { state: self, outputs }
    }

    /// The state with the cursor at column `x` of line `y`.
    pub open spec fn cursor_at(self, x: u16, y: u16) -> Outcome {
        Outcome { state: UnitView { cursor_position: (x, y), ..self }, outputs: Seq::empty() }
    }

    /// Whether a line follows the line of the cursor.
    pub open spec fn has_line_below(self) -> bool {
        self.cursor_position.1 + 1 < self.output.len() && self.cursor_position.1 < u16::MAX
    }

    /// The length of line `y`; 0 where there is no such line.
    pub open spec fn line_len(self, y: int) -> u16 {
        if 0 <= y < self.output.len() {
            len16(self.output[y])
        } else {
            0
        }
    }

    /// `help`: what can be asked of the editor.
    pub open spec fn handle_help(self) -> Outcome {
        self.unchanged(
            seq![
                info("help"@),
                info("  open <file_name> - Open a file in the editor"@),
                info("  sync - Sync files with the server"@),
                info("  remove <file_name> - Remove a file"@),
            ],
        )
    }

    /// `open <file_name>`: the editor pops up and asks for the file.
    pub open spec fn handle_open(self, parts: Seq<Seq<char>>) -> Outcome {
        if parts.len() <= 3 {
            self.unchanged(seq![info("open"@), missing("<file_name>"@, "open"@, parts)])
        } else {
            Outcome {
                state: UnitView { file_name: parts[3], ..self },
                outputs: seq![
                    info("open"@),
                    send("p plugins popup editor"@),
                    OutputView::OpenFile { path: full_path(parts[3]) },
                ],
            }
        }
    }

    /// After the file at `path` was opened: its lines become the content,
    /// with the cursor at the start, and the panels are drawn; or a warning
    /// says what went wrong.
    pub open spec fn opened(self, path: Seq<char>, result: OpenedView) -> Outcome {
        match result {
            OpenedView::Content(text) => Outcome {
                state: UnitView { output: lines_spec(text), cursor_position: (0, 0), ..self },
                outputs: seq![send(redraw_cmd())],
            },
            OpenedView::OpenFailed(error) => self.unchanged(
                seq![warning("Failed to open file `"@ + path + "`: "@ + error)],
            ),
            OpenedView::ReadFailed => self.unchanged(
                seq![warning("Failed to read file `"@ + path + "`"@)],
            ),
        }
    }

    /// `remove <file_name>`: asks for the file to be removed.
    pub open spec fn handle_remove(self, parts: Seq<Seq<char>>) -> Outcome {
        if parts.len() <= 3 {
            self.unchanged(seq![info("remove"@), missing("<file_name>"@, "remove"@, parts)])
        } else {
            self.unchanged(
                seq![info("remove"@), OutputView::RemoveFile { path: full_path(parts[3]) }],
            )
        }
    }

    /// The key that closes the editor.
    pub open spec fn close(self) -> Outcome {
        self.unchanged(seq![send("p plugins popup"@), send(redraw_cmd())])
    }

    /// Up: to the line above, not past its end; on the first line, to its
    /// start.
    pub open spec fn up(self) -> Outcome {
        let (x, y) = self.cursor_position;
        if y > 0 {
            let len = self.line_len(y - 1);
            self.cursor_at(
                if x > len {
                    len
                } else {
                    x
                },
                (y - 1) as u16,
            )
        } else {
            self.cursor_at(0, y)
        }
    }

    /// Down: to the line below, not past its end; on the last line, to its
    /// end.
    pub open spec fn down(self) -> Outcome {
        let (x, y) = self.cursor_position;
        if self.has_line_below() {
            let len = self.line_len(y + 1);
            self.cursor_at(
                if x > len {
                    len
                } else {
                    x
                },
                (y + 1) as u16,
            )
        } else {
            self.cursor_at(self.line_len(y as int), y)
        }
    }

    /// Left: one column back; at the start of a line, to the end of the line
    /// above.
    pub open spec fn left(self) -> Outcome {
        let (x, y) = self.cursor_position;
        if x > 0 {
            self.cursor_at((x - 1) as u16, y)
        } else if y > 0 {
            self.cursor_at(self.line_len(y - 1), (y - 1) as u16)
        } else {
            self.cursor_at(x, y)
        }
    }

    /// Right: one column on; at the end of a line, to the start of the line
    /// below.
    pub open spec fn right(self) -> Outcome {
        let (x, y) = self.cursor_position;
        if x < self.line_len(y as int) {
            self.cursor_at((x + 1) as u16, y)
        } else if self.has_line_below() {
            self.cursor_at(0, (y + 1) as u16)
        } else {
            self.cursor_at(x, y)
        }
    }

    /// `key <code>`: what a key does in the editor.
    pub open spec fn handle_key(self, parts: Seq<Seq<char>>) -> Outcome {
        if parts.len() <= 3 {
            self.unchanged(seq![missing("<key>"@, "key"@, parts)])
        } else {
            match Key::named(parts[3]) {
                None => self.unchanged(
                    seq![
                        warning(
                            MsgTemplate::InvalidParameters.format_spec(
                                "<key>"@,
                                "key"@,
                                join_spec(parts, " "@),
                            ),
                        ),
                    ],
                ),
                Some(key) => match key {
                    Key::ControlX => self.close(),
                    Key::Home => self.cursor_at(0, self.cursor_position.1),
                    Key::End => self.cursor_at(
                        self.line_len(self.cursor_position.1 as int),
                        self.cursor_position.1,
                    ),
                    Key::Up => self.up(),
                    Key::Down => self.down(),
                    Key::Left => self.left(),
                    Key::Right => self.right(),
                    Key::AltUp
                    | Key::AltDown
                    | Key::AltLeft
                    | Key::AltRight
                    | Key::AltW
                    | Key::AltS
                    | Key::AltA
                    | Key::AltD => {
                        let p = self.panel_info;
                        let place = key_position(key, p.x, p.y, p.w, p.h);
                        Outcome {
                            state: UnitView {
                                panel_info: PanelInfo {
                                    x: place.0,
                                    y: place.1,
                                    w: place.2,
                                    h: place.3,
                                    ..p
                                },
                                ..self
                            },
                            outputs: seq![send(redraw_cmd())],
                        }
                    },
                    _ => self.unchanged(Seq::empty()),
                },
            }
        }
    }

    /// What the editor does with a command.
    pub open spec fn step(self, action: Action, parts: Seq<Seq<char>>) -> Outcome {
        match action {
            Action::Help => self.handle_help(),
            Action::Show => self.unchanged(
                seq![info("show"@), OutputView::ListFiles { folder: NAS_EDITOR_FOLDER@ }],
            ),
            Action::Gui => match handle_gui(MODULE@, parts) {
                Ok(pair) => Outcome {
                    state: UnitView { panel_info: pair.0, ..self },
                    outputs: seq![OutputView::Bus(pair.1)],
                },
                Err(w) => self.unchanged(seq![OutputView::Bus(w)]),
            },
            Action::Open => self.handle_open(parts),
            Action::Key => self.handle_key(parts),
            Action::Sync => self.unchanged(
                seq![info("sync"@), OutputView::Sync { folder: NAS_EDITOR_FOLDER@ }],
            ),
            Action::Remove => self.handle_remove(parts),
            _ => self.unchanged(
                seq![warning(MsgTemplate::UnsupportedAction.format_spec(action.name(), ""@, ""@))],
            ),
        }
    }

    /// How the editor is drawn: the name of the file in the title, the file
    /// as content, and the cursor inside the frame.
    pub open spec fn draw(self, area: Rect, active: bool) -> PanelDrawingView {
        let p = self.panel_info;
        let place = caculate_position_spec(area, p.x, p.y, p.w, p.h);
        let cells = cells_spec(p, area);
        PanelDrawingView {
            area: cells,
            title: "editor - "@ + self.file_name,
            active,
            scroll: scroll_offset_spec(self.output.len(), cells.height),
            lines: plain_lines_spec(self.output),
            cursor: Some(
                (
                    add_sat(add_sat(place.0, self.cursor_position.0), 1),
                    add_sat(add_sat(place.1, self.cursor_position.1), 1),
                ),
            ),
        }
    }
}

impl View for PluginUnit {
    type V = UnitView;

    closed spec fn view(&self) -> UnitView {
        UnitView {
            file_name: self.file_name@,
            output: words_view(self.output@),
            panel_info: self.panel_info,
            cursor_position: self.cursor_position,
        }
    }
}

fn push_output(outputs: &mut Vec<Output>, o: Output)
    ensures
        outputs_view(final(outputs)@) == outputs_view(old(outputs)@).push(o@),
{
    outputs.push(o);
    assert(outputs_view(outputs@) =~= outputs_view(old(outputs)@).push(o@));
}

fn one(o: Output) -> (out: Vec<Output>)
    ensures
        outputs_view(out@) == seq![o@],
{
    let mut out: Vec<Output> = Vec::new();
    push_output(&mut out, o);
    assert(outputs_view(out@) =~= seq![o@]);
    out
}

fn two(a: Output, b: Output) -> (out: Vec<Output>)
    ensures
        outputs_view(out@) == seq![a@, b@],
{
    let mut out: Vec<Output> = Vec::new();
    push_output(&mut out, a);
    push_output(&mut out, b);
    assert(outputs_view(out@) =~= seq![a@, b@]);
    out
}

fn none() -> (out: Vec<Output>)
    ensures
        outputs_view(out@) == Seq::<OutputView>::empty(),
{
    let out: Vec<Output> = Vec::new();
    assert(outputs_view(out@) =~= Seq::<OutputView>::empty());
    out
}

fn info_output(msg: &str) -> (out: Output)
    ensures
        out@ == info(msg@),
{
    Output::Bus(Effect::info(MODULE, msg))
}

fn warn_output(msg: &str) -> (out: Output)
    ensures
        out@ == warning(msg@),
{
    Output::Bus(Effect::warn(MODULE, msg))
}

fn send_output(cmd: &str) -> (out: Output)
    ensures
        out@ == send(cmd@),
{
    Output::Bus(Effect::cmd(MODULE, cmd))
}

fn missing_output(what: &str, action: &str, cmd_parts: &Vec<String>) -> (out: Output)
    ensures
        out@ == missing(what@, action@, words_view(cmd_parts@)),
{
    let line = join(cmd_parts, " ");
    warn_output(MsgTemplate::MissingParameters.format(what, action, line.as_str()).as_str())
}

fn path_of(file_name: &str) -> (out: String)
    ensures
        out@ == full_path(file_name@),
{
    concat3(NAS_EDITOR_FOLDER, "/", file_name)
}

fn sat_add(a: u16, b: u16) -> (out: u16)
    ensures
        out == add_sat(a, b),
{
    if b > u16::MAX - a {
        u16::MAX
    } else {
        a + b
    }
}

/// Removes the slashes at the start of a path.
pub fn trim_leading_slashes(s: &str) -> (out: String)
    ensures
        out@ == without_leading_slashes(s@),
{
    let v = crate::text::chars_of(s);
    let mut i: usize = 0;
    assert(v@.skip(0) == v@);
    while i < v.len() && v[i] == '/'
        invariant
            i <= v.len(),
            without_leading_slashes(v@) == without_leading_slashes(v@.skip(i as int)),
        decreases v.len() - i,
    {
        proof {
            assert(v@.skip(i as int)[0] == v@[i as int]);
            assert(v@.skip(i as int).drop_first() == v@.skip(i + 1));
        }
        i += 1;
    }
    proof {
        if i < v.len() {
            assert(v@.skip(i as int)[0] == v@[i as int]);
        }
        assert(v@.skip(i as int) == v@.subrange(i as int, v.len() as int));
    }
    crate::text::string_of(&v, i, v.len())
}

/// The first of `files` that has the name `name`, if any.
pub open spec fn find_file(files: Seq<FileMetaView>, name: Seq<char>) -> Option<FileMetaView>
    decreases files.len(),
{
    if files.len() == 0 {
        None
    } else {
        match find_file(files.drop_last(), name) {
            Some(f) => Some(f),
            None => if files.last().filename == name {
                Some(files.last())
            } else {
                None
            },
        }
    }
}

/// The upload of a local file.
pub open spec fn upload_steps(name: Seq<char>) -> Seq<OutputView> {
    seq![info("Server <= Local: `"@ + name + "`"@), OutputView::Upload { path: full_path(name) }]
}

/// The download of a file of the server.
pub open spec fn download_steps(name: Seq<char>) -> Seq<OutputView> {
    seq![info("Server => Local: `"@ + name + "`"@), OutputView::Download { path: full_path(name) }]
}

/// What is done for one local file: it is uploaded where the server lacks
/// it or has an older one, downloaded where the server has another that is
/// not older, and left alone where both are the same.
pub open spec fn local_steps(remote: Seq<FileMetaView>, file: FileMetaView) -> Seq<OutputView> {
    match find_file(remote, file.filename) {
        None => upload_steps(file.filename),
        Some(theirs) => if theirs.hash == file.hash {
            seq![info("Server == Local: `"@ + file.filename + "`"@)]
        } else if lex_lt(theirs.mtime, file.mtime) {
            upload_steps(file.filename)
        } else {
            download_steps(file.filename)
        },
    }
}

/// What is done for one file of the server: it is downloaded where there is
/// no local file of its name.
pub open spec fn remote_steps(local: Seq<FileMetaView>, file: FileMetaView) -> Seq<OutputView> {
    if find_file(local, file.filename) is None {
        download_steps(file.filename)
    } else {
        Seq::empty()
    }
}

/// What is done for the first `upto` local files.
pub open spec fn all_local_steps(remote: Seq<FileMetaView>, local: Seq<FileMetaView>, upto: nat) -> Seq<
    OutputView,
>
    decreases upto,
{
    if upto == 0 {
        Seq::empty()
    } else {
        all_local_steps(remote, local, (upto - 1) as nat) + local_steps(remote, local[upto - 1])
    }
}

/// What is done for the first `upto` files of the server.
pub open spec fn all_remote_steps(
    local: Seq<FileMetaView>,
    remote: Seq<FileMetaView>,
    upto: nat,
) -> Seq<OutputView>
    decreases upto,
{
    if upto == 0 {
        Seq::empty()
    } else {
        all_remote_steps(local, remote, (upto - 1) as nat) + remote_steps(local, remote[upto - 1])
    }
}

/// How a folder and the server's copy of it are brought into line. Nothing
/// is to do where the hashes of the two agree. Else every local file is
/// looked at, in order, and then every file of the server.
pub open spec fn sync_plan_spec(remote: FolderMetaView, local: FolderMetaView) -> Seq<OutputView> {
    if remote.hash == local.hash {
        seq![info("Server == Local"@)]
    } else {
        all_local_steps(remote.files, local.files, local.files.len()) + all_remote_steps(
            local.files,
            remote.files,
            remote.files.len(),
        )
    }
}

fn find<'a>(files: &'a Vec<FileMeta>, name: &str) -> (out: Option<&'a FileMeta>)
    ensures
        out is Some == find_file(crate::utils::nas::files_view(files@), name@) is Some,
        out matches Some(f) ==> find_file(crate::utils::nas::files_view(files@), name@) == Some(f@),
{
    let ghost views = crate::utils::nas::files_view(files@);
    let mut i: usize = 0;
    assert(views.take(0) =~= Seq::empty());
    while i < files.len()
        invariant
            i <= files.len(),
            views == crate::utils::nas::files_view(files@),
            find_file(views.take(i as int), name@) is None,
        decreases files.len() - i,
    {
        proof {
            assert(views.take(i + 1).drop_last() == views.take(i as int));
            assert(views.take(i + 1).last() == files@[i as int]@);
        }
        if files[i].filename.as_str().eq(name) {
            proof {
                lemma_find_file_prefix(views, name@, i + 1);
            }
            return Some(&files[i]);
        }
        i += 1;
    }
    proof {
        assert(views.take(files.len() as int) == views);
    }
    None
}

proof fn lemma_find_file_prefix(files: Seq<FileMetaView>, name: Seq<char>, k: int)
    requires
        0 <= k <= files.len(),
        find_file(files.take(k), name) is Some,
    ensures
        find_file(files, name) == find_file(files.take(k), name),
    decreases files.len() - k,
{
    if k < files.len() {
        assert(files.take(k + 1).drop_last() == files.take(k));
        lemma_find_file_prefix(files, name, k + 1);
    } else {
        assert(files.take(k) == files);
    }
}

fn push_all(out: &mut Vec<Output>, a: Output, b: Output)
    ensures
        outputs_view(final(out)@) == outputs_view(old(out)@) + seq![a@, b@],
{
    push_output(out, a);
    push_output(out, b);
    assert(outputs_view(out@) =~= outputs_view(old(out)@) + seq![a@, b@]);
}

fn push_upload(out: &mut Vec<Output>, name: &str)
    ensures
        outputs_view(final(out)@) == outputs_view(old(out)@) + upload_steps(name@),
{
    push_all(
        out,
        info_output(concat3("Server <= Local: `", name, "`").as_str()),
        Output::Upload { path: path_of(name) },
    );
}

fn push_download(out: &mut Vec<Output>, name: &str)
    ensures
        outputs_view(final(out)@) == outputs_view(old(out)@) + download_steps(name@),
{
    push_all(
        out,
        info_output(concat3("Server => Local: `", name, "`").as_str()),
        Output::Download { path: path_of(name) },
    );
}

/// Says how the folder of the editor and the server's copy of it are brought
/// into line, given what is known of both (see [`sync_plan_spec`]).
pub fn sync_plan(remote: &FolderMeta, local: &FolderMeta) -> (out: Vec<Output>)
    ensures
        outputs_view(out@) == sync_plan_spec(remote@, local@),
{
    if remote.hash.as_str().eq(local.hash.as_str()) {
        return one(info_output("Server == Local"));
    }
    let ghost theirs = remote@.files;
    let ghost ours = local@.files;
    let mut out: Vec<Output> = Vec::new();
    let mut i: usize = 0;
    assert(outputs_view(out@) =~= all_local_steps(theirs, ours, 0));
    while i < local.files.len()
        invariant
            i <= local.files.len(),
            theirs == remote@.files,
            ours == local@.files,
            outputs_view(out@) == all_local_steps(theirs, ours, i as nat),
        decreases local.files.len() - i,
    {
        let file = &local.files[i];
        proof {
            assert(ours[i as int] == local.files@[i as int]@);
        }
        let name = file.filename.as_str();
        match find(&remote.files, name) {
            None => push_upload(&mut out, name),
            Some(other) => {
                if other.hash.as_str().eq(file.hash.as_str()) {
                    let ghost before = outputs_view(out@);
                    push_output(
                        &mut out,
                        info_output(concat3("Server == Local: `", name, "`").as_str()),
                    );
                    assert(outputs_view(out@) =~= before + seq![
                        info("Server == Local: `"@ + name@ + "`"@),
                    ]);
                } else if less(other.mtime.as_str(), file.mtime.as_str()) {
                    push_upload(&mut out, name);
                } else {
                    push_download(&mut out, name);
                }
            },
        }
        i += 1;
    }
    let ghost first = outputs_view(out@);
    let mut k: usize = 0;
    assert(outputs_view(out@) =~= first + all_remote_steps(ours, theirs, 0));
    while k < remote.files.len()
        invariant
            k <= remote.files.len(),
            theirs == remote@.files,
            ours == local@.files,
            outputs_view(out@) == first + all_remote_steps(ours, theirs, k as nat),
        decreases remote.files.len() - k,
    {
        let file = &remote.files[k];
        proof {
            assert(theirs[k as int] == remote.files@[k as int]@);
        }
        let ghost before = outputs_view(out@);
        if find(&local.files, file.filename.as_str()).is_none() {
            push_download(&mut out, file.filename.as_str());
        }
        proof {
            assert(outputs_view(out@) =~= first + (all_remote_steps(ours, theirs, k as nat)
                + remote_steps(ours, theirs[k as int])));
        }
        k += 1;
    }
    out
}

/// The warning for a sync while the address of the server is not known.
pub fn sync_unavailable() -> (out: Effect)
    ensures
        out@ == log_effect(Level::Warn, MODULE@, SERVER_IP_NOT_SET@),
{
    Effect::warn(MODULE, SERVER_IP_NOT_SET)
}

/// The warning for a sync that could not learn what the server holds.
pub fn sync_failed(error: &str) -> (out: Effect)
    ensures
        out@ == log_effect(
            Level::Warn,
            MODULE@,
            "Failed to get folder meta from server: "@ + error@,
        ),
{
    Effect::warn(MODULE, concat("Failed to get folder meta from server: ", error).as_str())
}

impl PluginUnit {
    /// The editor when it starts.
    pub fn new() -> (out: PluginUnit)
        ensures
            out@ == UnitView::start(),
    {
        let out = PluginUnit {
            file_name: String::new(),
            output: Vec::new(),
            panel_info: PanelInfo::new(PanelType::Normal),
            cursor_position: (0, 0),
        };
        assert(out@.output =~= Seq::empty());
        out
    }

    /// The panel of the editor.
    pub fn panel_info(&self) -> (out: PanelInfo)
        ensures
            out == self@.panel_info,
    {
        self.panel_info
    }

    /// Column and line of the cursor.
    pub fn cursor_position(&self) -> (out: (u16, u16))
        ensures
            out == self@.cursor_position,
    {
        self.cursor_position
    }

    /// The lines of the open file.
    pub fn output(&self) -> (out: &Vec<String>)
        ensures
            words_view(out@) == self@.output,
    {
        &self.output
    }

    /// The name of the open file.
    pub fn file_name(&self) -> (out: &str)
        ensures
            out@ == self@.file_name,
    {
        self.file_name.as_str()
    }

    fn line_len(&self, y: usize) -> (out: u16)
        ensures
            out == self@.line_len(y as int),
    {
        if y < self.output.len() {
            proof {
                assert(self@.output[y as int] == self.output@[y as int]@);
            }
            str_len16(self.output[y].as_str())
        } else {
            0
        }
    }

    fn handle_action_help(&self) -> (out: Vec<Output>)
        ensures
            outputs_view(out@) == self@.handle_help().outputs,
    {
        let mut out: Vec<Output> = Vec::new();
        push_output(&mut out, info_output("help"));
        push_output(&mut out, info_output("  open <file_name> - Open a file in the editor"));
        push_output(&mut out, info_output("  sync - Sync files with the server"));
        push_output(&mut out, info_output("  remove <file_name> - Remove a file"));
        assert(outputs_view(out@) =~= self@.handle_help().outputs);
        out
    }

    fn handle_action_open(&mut self, cmd_parts: &Vec<String>) -> (out: Vec<Output>)
        ensures
            final(self)@ == old(self)@.handle_open(words_view(cmd_parts@)).state,
            outputs_view(out@) == old(self)@.handle_open(words_view(cmd_parts@)).outputs,
    {
        if cmd_parts.len() <= 3 {
            return two(info_output("open"), missing_output("<file_name>", "open", cmd_parts));
        }
        self.file_name = cmd_parts[3].clone();
        let mut out: Vec<Output> = Vec::new();
        push_output(&mut out, info_output("open"));
        push_output(&mut out, send_output("p plugins popup editor"));
        push_output(&mut out, Output::OpenFile { path: path_of(cmd_parts[3].as_str()) });
        assert(outputs_view(out@) =~= old(self)@.handle_open(words_view(cmd_parts@)).outputs);
        out
    }

    /// Takes what the opening of the file at `path` came to (see
    /// [`UnitView::opened`]).
    pub fn opened(&mut self, path: &str, result: &Opened) -> (out: Vec<Output>)
        ensures
            final(self)@ == old(self)@.opened(path@, result@).state,
            outputs_view(out@) == old(self)@.opened(path@, result@).outputs,
    {
        match result {
            Opened::Content(text) => {
                self.output = lines(text.as_str());
                self.cursor_position = (0, 0);
                one(send_output("p plugins redraw"))
            },
            Opened::OpenFailed(error) => {
                let mut text = String::from_str("Failed to open file `");
                text.append(path);
                text.append("`: ");
                text.append(error.as_str());
                one(warn_output(text.as_str()))
            },
            Opened::ReadFailed => one(
                warn_output(concat3("Failed to read file `", path, "`").as_str()),
            ),
        }
    }

    /// Logs the files of the editor's folder, given their paths below it.
    pub fn listed(&self, files: &Vec<String>) -> (out: Vec<Effect>)
        ensures
            out.len() == list_files_spec(words_view(files@)).len(),
            forall|i: int|
                0 <= i < out.len() ==> (#[trigger] out@[i])@ == log_effect(
                    Level::Info,
                    MODULE@,
                    list_files_spec(words_view(files@))[i],
                ),
    {
        let texts = list_files_lines(files);
        let ghost spec_lines = list_files_spec(words_view(files@));
        let mut out: Vec<Effect> = Vec::new();
        let mut i: usize = 0;
        while i < texts.len()
            invariant
                i <= texts.len(),
                words_view(texts@) == spec_lines,
                out.len() == i,
                forall|j: int|
                    0 <= j < i ==> (#[trigger] out@[j])@ == log_effect(
                        Level::Info,
                        MODULE@,
                        spec_lines[j],
                    ),
            decreases texts.len() - i,
        {
            proof {
                assert(spec_lines[i as int] == texts@[i as int]@);
            }
            out.push(Effect::info(MODULE, texts[i].as_str()));
            i += 1;
        }
        out
    }

    /// After the file at `path` was removed, or could not be: what to log,
    /// and, on success, the request to the server to remove its copy.
    pub fn removed(&self, path: &str, done: bool) -> (out: Vec<Output>)
        ensures
            outputs_view(out@) == if done {
                seq![
                    info("File `"@ + path@ + "` removed"@),
                    OutputView::PostRemove { filename: without_leading_slashes(path@) },
                ]
            } else {
                seq![warning("Failed to remove file `"@ + path@ + "`"@)]
            },
    {
        if done {
            two(
                info_output(concat3("File `", path, "` removed").as_str()),
                Output::PostRemove { filename: trim_leading_slashes(path) },
            )
        } else {
            one(warn_output(concat3("Failed to remove file `", path, "`").as_str()))
        }
    }

    fn handle_action_remove(&self, cmd_parts: &Vec<String>) -> (out: Vec<Output>)
        ensures
            outputs_view(out@) == self@.handle_remove(words_view(cmd_parts@)).outputs,
    {
        if cmd_parts.len() <= 3 {
            return two(info_output("remove"), missing_output("<file_name>", "remove", cmd_parts));
        }
        two(info_output("remove"), Output::RemoveFile { path: path_of(cmd_parts[3].as_str()) })
    }

    fn handle_action_key_up(&mut self)
        ensures
            final(self)@ == old(self)@.up().state,
    {
        let (x, y) = self.cursor_position;
        if y > 0 {
            let len = self.line_len((y - 1) as usize);
            self.cursor_position = (
                if x > len {
                    len
                } else {
                    x
                },
                y - 1,
            );
        } else {
            self.cursor_position = (0, y);
        }
    }

    fn handle_action_key_down(&mut self)
        ensures
            final(self)@ == old(self)@.down().state,
    {
        let (x, y) = self.cursor_position;
        if y < u16::MAX && (y as usize) < self.output.len() && (y as usize) + 1
            < self.output.len() {
            let len = self.line_len(y as usize + 1);
            self.cursor_position = (
                if x > len {
                    len
                } else {
                    x
                },
                y + 1,
            );
        } else {
            self.cursor_position = (self.line_len(y as usize), y);
        }
    }

    fn handle_action_key_left(&mut self)
        ensures
            final(self)@ == old(self)@.left().state,
    {
        let (x, y) = self.cursor_position;
        if x > 0 {
            self.cursor_position = (x - 1, y);
        } else if y > 0 {
            self.cursor_position = (self.line_len((y - 1) as usize), y - 1);
        }
    }

    fn handle_action_key_right(&mut self)
        ensures
            final(self)@ == old(self)@.right().state,
    {
        let (x, y) = self.cursor_position;
        if x < self.line_len(y as usize) {
            self.cursor_position = (x + 1, y);
        } else if y < u16::MAX && (y as usize) < self.output.len() && (y as usize) + 1
            < self.output.len() {
            self.cursor_position = (0, y + 1);
        }
    }

    fn handle_action_key(&mut self, cmd_parts: &Vec<String>) -> (out: Vec<Output>)
        ensures
            final(self)@ == old(self)@.handle_key(words_view(cmd_parts@)).state,
            outputs_view(out@) == old(self)@.handle_key(words_view(cmd_parts@)).outputs,
    {
        if cmd_parts.len() <= 3 {
            return one(missing_output("<key>", "key", cmd_parts));
        }
        match Key::parse(cmd_parts[3].as_str()) {
            None => {
                let line = join(cmd_parts, " ");
                one(
                    warn_output(
                        MsgTemplate::InvalidParameters.format(
                            "<key>",
                            "key",
                            line.as_str(),
                        ).as_str(),
                    ),
                )
            },
            Some(key) => match key {
                Key::ControlX => two(
                    send_output("p plugins popup"),
                    send_output("p plugins redraw"),
                ),
                Key::Home => {
                    self.cursor_position = (0, self.cursor_position.1);
                    none()
                },
                Key::End => {
                    let y = self.cursor_position.1;
                    self.cursor_position = (self.line_len(y as usize), y);
                    none()
                },
                Key::Up => {
                    self.handle_action_key_up();
                    none()
                },
                Key::Down => {
                    self.handle_action_key_down();
                    none()
                },
                Key::Left => {
                    self.handle_action_key_left();
                    none()
                },
                Key::Right => {
                    self.handle_action_key_right();
                    none()
                },
                Key::AltUp
                | Key::AltDown
                | Key::AltLeft
                | Key::AltRight
                | Key::AltW
                | Key::AltS
                | Key::AltA
                | Key::AltD => {
                    let p = self.panel_info;
                    let moved = handle_action_key_position(MODULE, key, p.x, p.y, p.w, p.h);
                    let place = moved.0;
                    self.panel_info = PanelInfo {
                        panel_type: p.panel_type,
                        x: place.0,
                        y: place.1,
                        w: place.2,
                        h: place.3,
                    };
                    one(Output::Bus(moved.1))
                },
                _ => none(),
            },
        }
    }

    /// Handles a command (see [`UnitView::step`]).
    pub fn handle_action(&mut self, action: Action, cmd_parts: &Vec<String>) -> (out: Vec<Output>)
        ensures
            final(self)@ == old(self)@.step(action, words_view(cmd_parts@)).state,
            outputs_view(out@) == old(self)@.step(action, words_view(cmd_parts@)).outputs,
    {
        match action {
            Action::Help => self.handle_action_help(),
            Action::Show => two(
                info_output("show"),
                Output::ListFiles { folder: String::from_str(NAS_EDITOR_FOLDER) },
            ),
            Action::Gui => match handle_action_gui(MODULE, cmd_parts) {
                Ok(pair) => {
                    self.panel_info = pair.0;
                    one(Output::Bus(pair.1))
                },
                Err(w) => one(Output::Bus(w)),
            },
            Action::Open => self.handle_action_open(cmd_parts),
            Action::Key => self.handle_action_key(cmd_parts),
            Action::Sync => two(
                info_output("sync"),
                Output::Sync { folder: String::from_str(NAS_EDITOR_FOLDER) },
            ),
            Action::Remove => self.handle_action_remove(cmd_parts),
            _ => one(
                warn_output(
                    MsgTemplate::UnsupportedAction.format(action.as_ref(), "", "").as_str(),
                ),
            ),
        }
    }

    /// Says how the editor is drawn in a terminal that covers `area` (see
    /// [`UnitView::draw`]).
    pub fn draw(&self, area: Rect, active: bool) -> (out: PanelDrawing)
        ensures
            out@ == self@.draw(area, active),
    {
        let p = self.panel_info;
        let place = caculate_position(area, p.x, p.y, p.w, p.h);
        let cells = panel_rect(place.0, place.1, place.2, place.3, area);
        PanelDrawing {
            area: cells,
            title: concat("editor - ", self.file_name.as_str()),
            active,
            scroll: scroll_offset(self.output.len(), cells.height),
            lines: plain_lines(&self.output),
            cursor: Some(
                (
                    sat_add(sat_add(place.0, self.cursor_position.0), 1),
                    sat_add(sat_add(place.1, self.cursor_position.1), 1),
                ),
            ),
        }
    }
}

} // verus!
