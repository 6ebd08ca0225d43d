//! The music component: it downloads music, hands it to the server, and
//! clears its folder.

use vstd::prelude::*;
use vstd::string::*;
use crate::consts::{NAS_MUSIC_FOLDER, NAS_UPLOAD_FOLDER, SERVER_IP_NOT_SET};
use crate::messages::{log_effect, Action, Effect, EffectView, Level};
use crate::text::{concat, decimal, decimal_spec, join, join_spec, words_view};
use crate::utils::common::{shorten, shorten_spec, MsgTemplate};
use crate::utils::ffmpeg::Ffmpeg;
use crate::utils::yt_dlp::{bool_text, YtDlp};

verus! {

/// The name under which this component is addressed.
pub const MODULE: &'static str = "music";

/// What the caller is to do for the music component.
#[derive(Debug)]
pub enum Output {
    /// Perform an effect on the bus.
    Bus(Effect),
    /// List the files of the folder and what is known of it.
    ListFolder { folder: String },
    /// Download the music at `url`.
    Download { url: String },
    /// Send every file of `source_dir` to the folder `target_dir` of the
    /// server at `server_ip`.
    UploadAll { server_ip: String, source_dir: String, target_dir: String },
    /// Remove every file of the folder.
    RemoveAll { folder: String },
}

/// An [`Output`] as a plain value.
pub enum OutputView {
    Bus(EffectView),
    ListFolder { folder: Seq<char> },
    Download { url: Seq<char> },
    UploadAll { server_ip: Seq<char>, source_dir: Seq<char>, target_dir: Seq<char> },
    RemoveAll { folder: Seq<char> },
}

impl View for Output {
    type V = OutputView;

    open spec fn view(&self) -> OutputView {
        match *self {
            Output::Bus(e) => OutputView::Bus(e@),
            Output::ListFolder { folder } => OutputView::ListFolder { folder: folder@ },
            Output::Download { url } => OutputView::Download { url: url@ },
            Output::UploadAll { server_ip, source_dir, target_dir } => OutputView::UploadAll {
                server_ip: server_ip@,
                source_dir: source_dir@,
                target_dir: target_dir@,
            },
            Output::RemoveAll { folder } => OutputView::RemoveAll { folder: folder@ },
        }
    }
}

/// The views of a sequence of outputs.
pub open spec fn outputs_view(v: Seq<Output>) -> Seq<OutputView> {
    Seq::new(v.len(), |i: int| v[i]@)
}

/// The output that logs `msg` for information.
pub open spec fn info(msg: Seq<char>) -> OutputView {
    OutputView::Bus(log_effect(Level::Info, MODULE@, msg))
}

/// The output that logs `msg` as a warning.
pub open spec fn warning(msg: Seq<char>) -> OutputView {
    OutputView::Bus(log_effect(Level::Warn, MODULE@, msg))
}

/// Effects on the bus, as outputs.
pub open spec fn on_bus(effects: Seq<EffectView>) -> Seq<OutputView> {
    Seq::new(effects.len(), |i: int| OutputView::Bus(effects[i]))
}

/// The views of a sequence of effects, as outputs.
pub open spec fn as_outputs(effects: Seq<Effect>) -> Seq<OutputView> {
    on_bus(crate::messages::effects_view(effects))
}

/// `show`: what is known of the component and of the programs it needs;
/// then the folder is to be listed.
pub open spec fn show_spec(unit: PluginUnit) -> Seq<OutputView> {
    seq![info("show"@), info("  available: "@ + bool_text(unit.is_available))] + on_bus(
        unit.yt_dlp.show_spec(),
    ) + on_bus(unit.ffmpeg.show_spec()) + seq![OutputView::ListFolder { folder: NAS_MUSIC_FOLDER@ }]
}

/// `help`: what can be asked of the component, and in which order.
pub open spec fn help_spec() -> Seq<OutputView> {
    seq![
        info("help"@),
        info("  download <url>"@),
        info("    url: the URL to download"@),
        info("  upload"@),
        info("  remove"@),
        info("  Normal procedure:"@),
        info("    1. Download music files from URL to NAS_MUSIC_FOLDER"@),
        info("    2. Upload music files from NAS_MUSIC_FOLDER to server"@),
        info("    3. Remove music files from NAS_MUSIC_FOLDER"@),
    ]
}

/// `download <url>`: asks for the download, where the programs for it are
/// there.
pub open spec fn download_spec(is_available: bool, parts: Seq<Seq<char>>) -> Seq<OutputView> {
    if !is_available {
        seq![info("show"@), warning("Not available"@)]
    } else if parts.len() > 3 {
        seq![
            info("show"@),
            OutputView::Bus(
                log_effect(
                    Level::Info,
                    crate::utils::yt_dlp::MODULE@,
                    "Downloading from `"@ + shorten_spec(parts[3], 5, 6) + "`..."@,
                ),
            ),
            OutputView::Download { url: parts[3] },
        ]
    } else {
        seq![
            info("show"@),
            warning(
                MsgTemplate::MissingParameters.format_spec(
                    "<url>"@,
                    "download"@,
                    join_spec(parts, " "@),
                ),
            ),
        ]
    }
}

/// `upload`: asks for all music to be sent to the server, where its
/// address is known.
pub open spec fn upload_spec(server_ip: Option<Seq<char>>) -> Seq<OutputView> {
    match server_ip {
        None => seq![info("upload"@), warning(SERVER_IP_NOT_SET@)],
        Some(ip) => seq![
            info("upload"@),
            OutputView::UploadAll {
                server_ip: ip,
                source_dir: NAS_MUSIC_FOLDER@,
                target_dir: NAS_UPLOAD_FOLDER@,
            },
        ],
    }
}

/// The line for the file number `count` of an upload; `filename` is shown
/// by its start.
pub open spec fn upload_line(verb: Seq<char>, count: nat, filename: Seq<char>) -> Seq<char> {
    "  "@ + verb + " file #"@ + decimal_spec(count) + ": `"@ + shorten_spec(filename, 20, 0) + "`"@
}

/// The music component.
#[derive(Debug)]
pub struct PluginUnit {
    pub is_available: bool,
    pub yt_dlp: YtDlp,
    pub ffmpeg: Ffmpeg,
}

fn push_output(outputs: &mut Vec<Output>, o: Output)
    ensures
        outputs_view(final(outputs)@) == outputs_view(old(outputs)@).push(o@),
{
    outputs.push(o);
    assert(outputs_view(outputs@) =~= outputs_view(old(outputs)@).push(o@));
}

fn info_output(msg: &str) -> (out: Output)
    ensures
        out@ == info(msg@),
{
    Output::Bus(Effect::info(MODULE, msg))
}

fn warn_output(msg: &str) -> (out: Output)
    ensures
        out@ == warning(msg@),
{
    Output::Bus(Effect::warn(MODULE, msg))
}

fn push_effects(out: &mut Vec<Output>, effects: Vec<Effect>)
    ensures
        outputs_view(final(out)@) == outputs_view(old(out)@) + as_outputs(effects@),
{
    let mut effects = effects;
    let ghost all = effects@;
    let ghost start = outputs_view(out@);
    let mut done: Vec<Effect> = Vec::new();
    let mut i: usize = 0;
    let n: usize = effects.len();
    // The effects are taken from the end, so the list is turned round first.
    while effects.len() > 0
        invariant
            effects.len() + done.len() == n,
            n == all.len(),
            forall|k: int| 0 <= k < effects.len() ==> effects@[k] == all[k],
            forall|k: int| 0 <= k < done.len() ==> done@[k] == all[n - 1 - k],
        decreases effects.len(),
    {
        let e = effects.pop().unwrap();
        done.push(e);
    }
    while done.len() > 0
        invariant
            done.len() + i == n,
            n == all.len(),
            forall|k: int| 0 <= k < done.len() ==> done@[k] == all[n - 1 - k],
            outputs_view(out@) == start + as_outputs(all.take(i as int)),
        decreases done.len(),
    {
        let e = done.pop().unwrap();
        let ghost before = outputs_view(out@);
        push_output(out, Output::Bus(e));
        proof {
            assert(e == all[i as int]);
            assert(as_outputs(all.take(i + 1)) =~= as_outputs(all.take(i as int)).push(
                OutputView::Bus(e@),
            ));
            assert(outputs_view(out@) =~= start + as_outputs(all.take(i + 1)));
        }
        i += 1;
    }
    proof {
        assert(all.take(n as int) == all);
    }
}

/// The line that says that file number `count` of an upload is being sent.
pub fn uploading(count: u64, filename: &str) -> (out: Effect)
    ensures
        out@ == log_effect(Level::Info, MODULE@, upload_line("Uploading"@, count as nat, filename@)),
{
    let mut text = String::from_str("  ");
    text.append("Uploading");
    text.append(" file #");
    text.append(decimal(count).as_str());
    text.append(": `");
    text.append(shorten(filename, 20, 0).as_str());
    text.append("`");
    Effect::info(MODULE, text.as_str())
}

/// The line that says that file number `count` of an upload was sent.
pub fn uploaded(count: u64, filename: &str) -> (out: Effect)
    ensures
        out@ == log_effect(Level::Info, MODULE@, upload_line("Uploaded"@, count as nat, filename@)),
{
    let mut text = String::from_str("  ");
    text.append("Uploaded");
    text.append(" file #");
    text.append(decimal(count).as_str());
    text.append(": `");
    text.append(shorten(filename, 20, 0).as_str());
    text.append("`");
    Effect::info(MODULE, text.as_str())
}

/// The line that says that all `count` files of an upload were sent.
pub fn uploaded_all(count: u64) -> (out: Effect)
    ensures
        out@ == log_effect(
            Level::Info,
            MODULE@,
            "  Uploaded "@ + decimal_spec(count as nat) + " (all) files done."@,
        ),
{
    let mut text = String::from_str("  Uploaded ");
    text.append(decimal(count).as_str());
    text.append(" (all) files done.");
    Effect::info(MODULE, text.as_str())
}

/// The warning for a file of an upload that could not be sent.
pub fn upload_failed(error: &str) -> (out: Effect)
    ensures
        out@ == log_effect(Level::Warn, MODULE@, "A upload task failed: "@ + error@),
{
    Effect::warn(MODULE, concat("A upload task failed: ", error).as_str())
}

/// The line that shows what is known of the folder; `meta` is the folder
/// in lines.
pub fn folder_meta_line(meta: &str) -> (out: Effect)
    ensures
        out@ == log_effect(Level::Info, MODULE@, "  Folder meta: "@ + meta@),
{
    Effect::info(MODULE, concat("  Folder meta: ", meta).as_str())
}

impl PluginUnit {
    /// The component: it can work where both programs are there.
    pub fn new(yt_dlp: YtDlp, ffmpeg: Ffmpeg) -> (out: PluginUnit)
        ensures
            out.is_available == (yt_dlp.is_available && ffmpeg.is_available),
            out.yt_dlp == yt_dlp,
            out.ffmpeg == ffmpeg,
    {
        let is_available = yt_dlp.is_available && ffmpeg.is_available;
        PluginUnit { is_available, yt_dlp, ffmpeg }
    }

    /// `show` (see [`show_spec`]).
    pub fn handle_action_show(&self) -> (out: Vec<Output>)
        ensures
            outputs_view(out@) == show_spec(*self),
    {
        let mut out: Vec<Output> = Vec::new();
        push_output(&mut out, info_output("show"));
        let available = if self.is_available {
            "true"
        } else {
            "false"
        };
        push_output(&mut out, info_output(concat("  available: ", available).as_str()));
        push_effects(&mut out, self.yt_dlp.handle_cmd_show());
        push_effects(&mut out, self.ffmpeg.handle_cmd_show());
        push_output(&mut out, Output::ListFolder { folder: String::from_str(NAS_MUSIC_FOLDER) });
        assert(outputs_view(out@) =~= show_spec(*self));
        out
    }

    /// `help` (see [`help_spec`]).
    pub fn handle_action_help(&self) -> (out: Vec<Output>)
        ensures
            outputs_view(out@) == help_spec(),
    {
        let mut out: Vec<Output> = Vec::new();
        push_output(&mut out, info_output("help"));
        push_output(&mut out, info_output("  download <url>"));
        push_output(&mut out, info_output("    url: the URL to download"));
        push_output(&mut out, info_output("  upload"));
        push_output(&mut out, info_output("  remove"));
        push_output(&mut out, info_output("  Normal procedure:"));
        push_output(
            &mut out,
            info_output("    1. Download music files from URL to NAS_MUSIC_FOLDER"),
        );
        push_output(
            &mut out,
            info_output("    2. Upload music files from NAS_MUSIC_FOLDER to server"),
        );
        push_output(&mut out, info_output("    3. Remove music files from NAS_MUSIC_FOLDER"));
        assert(outputs_view(out@) =~= help_spec());
        out
    }

    /// `download <url>` (see [`download_spec`]).
    pub fn handle_action_download(&self, cmd_parts: &Vec<String>) -> (out: Vec<Output>)
        ensures
            outputs_view(out@) == download_spec(self.is_available, words_view(cmd_parts@)),
    {
        let mut out: Vec<Output> = Vec::new();
        push_output(&mut out, info_output("show"));
        if !self.is_available {
            push_output(&mut out, warn_output("Not available"));
        } else if cmd_parts.len() > 3 {
            let url = cmd_parts[3].as_str();
            push_output(&mut out, Output::Bus(self.yt_dlp.download(url)));
            push_output(&mut out, Output::Download { url: String::from_str(url) });
        } else {
            let line = join(cmd_parts, " ");
            push_output(
                &mut out,
                warn_output(
                    MsgTemplate::MissingParameters.format(
                        "<url>",
                        "download",
                        line.as_str(),
                    ).as_str(),
                ),
            );
        }
        assert(outputs_view(out@) =~= download_spec(self.is_available, words_view(cmd_parts@)));
        out
    }

    /// `upload` (see [`upload_spec`]).
    pub fn handle_action_upload(&self, server_ip: &Option<String>) -> (out: Vec<Output>)
        ensures
            outputs_view(out@) == upload_spec(
                match *server_ip {
                    Some(ip) => Some(ip@),
                    None => None,
                },
            ),
    {
        let mut out: Vec<Output> = Vec::new();
        push_output(&mut out, info_output("upload"));
        match server_ip {
            None => push_output(&mut out, warn_output(SERVER_IP_NOT_SET)),
            Some(ip) => push_output(
                &mut out,
                Output::UploadAll {
                    server_ip: ip.clone(),
                    source_dir: String::from_str(NAS_MUSIC_FOLDER),
                    target_dir: String::from_str(NAS_UPLOAD_FOLDER),
                },
            ),
        }
        assert(outputs_view(out@) =~= upload_spec(
            match *server_ip {
                Some(ip) => Some(ip@),
                None => None,
            },
        ));
        out
    }

    /// `remove`: asks for the folder to be cleared.
    pub fn handle_action_remove(&self) -> (out: Vec<Output>)
        ensures
            outputs_view(out@) == seq![
                info("remove"@),
                OutputView::RemoveAll { folder: NAS_MUSIC_FOLDER@ },
            ],
    {
        let mut out: Vec<Output> = Vec::new();
        push_output(&mut out, info_output("remove"));
        push_output(&mut out, Output::RemoveAll { folder: String::from_str(NAS_MUSIC_FOLDER) });
        assert(outputs_view(out@) =~= seq![
            info("remove"@),
            OutputView::RemoveAll { folder: NAS_MUSIC_FOLDER@ },
        ]);
        out
    }

    /// The warning for an action that the component does not know.
    pub fn unsupported(&self, action: Action) -> (out: Vec<Output>)
        ensures
            outputs_view(out@) == seq![
                warning(MsgTemplate::UnsupportedAction.format_spec(action.name(), ""@, ""@)),
            ],
    {
        let mut out: Vec<Output> = Vec::new();
        push_output(
            &mut out,
            warn_output(MsgTemplate::UnsupportedAction.format(action.as_ref(), "", "").as_str()),
        );
        assert(outputs_view(out@) =~= seq![
            warning(MsgTemplate::UnsupportedAction.format_spec(action.name(), ""@, ""@)),
        ]);
        out
    }
}

} // verus!
