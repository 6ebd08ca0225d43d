//! The downloader: what is said about the program that fetches music, and
//! what it is started with.

use vstd::prelude::*;
use vstd::string::*;
use crate::messages::{effects_view, log_effect, push_effect, Effect, EffectView, Level};
use crate::text::{concat, concat3, trim_end, trim_end_spec, words_view};
use crate::utils::common::{shorten as shorten_to, shorten_spec};

verus! {

/// The name under which the downloader logs.
pub const MODULE: &'static str = "yt_dlp";

/// The program.
pub const BIN: &'static str = "yt-dlp";

/// The argument that asks the program for its version.
pub const ARG_VERSION: &'static str = "--version";

/// Where downloads are kept until they are complete.
pub const YT_DLP_CACHE: &'static str = "./yt_dlp_cache";

/// How many characters of the start of an address the log shows.
pub const URL_PREFIX: usize = 5;

/// How many characters of the end of an address the log shows.
pub const URL_SUFFIX: usize = 6;

/// What is known of the downloader.
#[derive(Debug)]
pub struct YtDlp {
    pub output_dir: String,
    pub is_available: bool,
    pub version: Option<String>,
}

/// The version, or the mark for "not known".
pub open spec fn version_or_na(version: Option<String>) -> Seq<char> {
    match version {
        Some(v) => v@,
        None => "N/A"@,
    }
}

/// `true` or `false`, as text.
pub open spec fn bool_text(b: bool) -> Seq<char> {
    if b {
        "true"@
    } else {
        "false"@
    }
}

/// An address as the log shows it: its start and its end.
pub fn shorten(s: &str) -> (out: String)
    ensures
        out@ == shorten_spec(s@, URL_PREFIX as nat, URL_SUFFIX as nat),
{
    shorten_to(s, URL_PREFIX, URL_SUFFIX)
}

/// The version that the program printed: its output without the white
/// space at the end.
pub fn parse_version(stdout: &str) -> (out: String)
    ensures
        out@ == trim_end_spec(stdout@),
{
    trim_end(stdout)
}

/// The arguments with which the program downloads `url` as music.
pub open spec fn download_args_spec(url: Seq<char>) -> Seq<Seq<char>> {
    seq![
        "--output"@,
        YT_DLP_CACHE@ + "/%(title)s.%(ext)s"@,
        "--embed-thumbnail"@,
        "--add-metadata"@,
        "--extract-audio"@,
        "--audio-format"@,
        "mp3"@,
        "--audio-quality"@,
        "320K"@,
        url,
    ]
}

/// The arguments with which the program downloads `url` as music.
pub fn download_args(url: &str) -> (out: Vec<String>)
    ensures
        words_view(out@) == download_args_spec(url@),
{
    let mut out: Vec<String> = Vec::new();
    out.push(String::from_str("--output"));
    out.push(concat(YT_DLP_CACHE, "/%(title)s.%(ext)s"));
    out.push(String::from_str("--embed-thumbnail"));
    out.push(String::from_str("--add-metadata"));
    out.push(String::from_str("--extract-audio"));
    out.push(String::from_str("--audio-format"));
    out.push(String::from_str("mp3"));
    out.push(String::from_str("--audio-quality"));
    out.push(String::from_str("320K"));
    out.push(String::from_str(url));
    assert(words_view(out@) =~= download_args_spec(url@));
    out
}

/// How a download ended.
#[derive(Clone, Copy, Debug, PartialEq, Eq, Structural)]
pub enum Downloaded {
    /// The program ran and succeeded.
    Done,
    /// The program ran and failed.
    Failed,
    /// The program could not be started.
    NotStarted,
}

/// The log line for the end of the download of `url`.
pub open spec fn download_end_spec(url: Seq<char>, result: Downloaded) -> EffectView {
    let shown = shorten_spec(url, URL_PREFIX as nat, URL_SUFFIX as nat);
    match result {
        Downloaded::Done => log_effect(Level::Info, MODULE@, "Downloaded from `"@ + shown + "`"@),
        Downloaded::Failed => log_effect(
            Level::Warn,
            MODULE@,
            "Failed to download from `"@ + shown + "`"@,
        ),
        Downloaded::NotStarted => log_effect(
            Level::Warn,
            MODULE@,
            "Failed to execute `yt-dlp` command"@,
        ),
    }
}

impl YtDlp {
    /// What `show` says of the downloader.
    pub open spec fn show_spec(self) -> Seq<EffectView> {
        seq![
            log_effect(Level::Info, MODULE@, "show"@),
            log_effect(Level::Info, MODULE@, "  available: "@ + bool_text(self.is_available)),
            log_effect(Level::Info, MODULE@, "  version: "@ + version_or_na(self.version)),
            log_effect(Level::Info, MODULE@, "  output_dir: `"@ + self.output_dir@ + "`"@),
        ]
    }

    /// The downloader, of which nothing is known yet.
    pub fn new(output_dir: &str) -> (out: YtDlp)
        ensures
            out.output_dir@ == output_dir@,
            !out.is_available,
            out.version is None,
    {
        YtDlp { output_dir: String::from_str(output_dir), is_available: false, version: None }
    }

    /// `show`: what is known of the downloader.
    pub fn handle_cmd_show(&self) -> (out: Vec<Effect>)
        ensures
            effects_view(out@) == self.show_spec(),
    {
        let mut out: Vec<Effect> = Vec::new();
        push_effect(&mut out, Effect::info(MODULE, "show"));
        let available = if self.is_available {
            "true"
        } else {
            "false"
        };
        push_effect(&mut out, Effect::info(MODULE, concat("  available: ", available).as_str()));
        let version = match &self.version {
            Some(v) => v.as_str(),
            None => "N/A",
        };
        push_effect(&mut out, Effect::info(MODULE, concat("  version: ", version).as_str()));
        push_effect(
            &mut out,
            Effect::info(MODULE, concat3("  output_dir: `", self.output_dir.as_str(), "`").as_str()),
        );
        assert(effects_view(out@) =~= self.show_spec());
        out
    }

    /// The log line for the start of the download of `url`.
    pub fn download(&self, url: &str) -> (out: Effect)
        ensures
            out@ == log_effect(
                Level::Info,
                MODULE@,
                "Downloading from `"@ + shorten_spec(url@, URL_PREFIX as nat, URL_SUFFIX as nat)
                    + "`..."@,
            ),
    {
        Effect::info(MODULE, concat3("Downloading from `", shorten(url).as_str(), "`...").as_str())
    }

    /// The log line for the end of the download of `url`.
    pub fn downloaded(&self, url: &str, result: Downloaded) -> (out: Effect)
        ensures
            out@ == download_end_spec(url@, result),
    {
        match result {
            Downloaded::Done => Effect::info(
                MODULE,
                concat3("Downloaded from `", shorten(url).as_str(), "`").as_str(),
            ),
            Downloaded::Failed => Effect::warn(
                MODULE,
                concat3("Failed to download from `", shorten(url).as_str(), "`").as_str(),
            ),
            Downloaded::NotStarted => Effect::warn(MODULE, "Failed to execute `yt-dlp` command"),
        }
    }
}

} // verus!
