//! What instances say to each other over HTTP: the bodies of the requests,
//! where they are sent, and how their outcome is reported.

use vstd::prelude::*;
use vstd::string::*;
use crate::consts::WEB_PORT;
use crate::messages::{log_effect, Effect, EffectView, Level};
use crate::text::{decimal_spec, pad_left, pad_left_spec, pad_right, pad_right_spec, push_decimal};
use crate::utils::common::{level_str, level_str_spec, shorten, shorten_spec};
use crate::utils::time::{ts_str, MAX_TS};

verus! {

/// How many characters of a file name the log shows.
pub const SHOWN_NAME: usize = 20;

/// Asks an instance to run a command.
#[derive(Debug)]
pub struct CmdRequest {
    pub cmd: String,
}

impl CmdRequest {
    /// The request as the log shows it: the command.
    pub fn to_string(&self) -> (out: String)
        ensures
            out@ == self.cmd@,
    {
        self.cmd.clone()
    }
}

/// Hands a file to an instance. `content` is the file in base64, `mtime` the
/// time of its last change.
pub struct UploadRequest {
    pub filename: String,
    pub content: String,
    pub mtime: String,
}

impl UploadRequest {
    /// The request as the log shows it: the start of the file name.
    pub fn to_string(&self) -> (out: String)
        ensures
            out@ == shorten_spec(self.filename@, SHOWN_NAME as nat, 0),
    {
        shorten(self.filename.as_str(), SHOWN_NAME, 0)
    }
}

/// Names the file that is asked for.
pub struct DownloadData {
    pub filename: String,
}

/// Asks an instance for a file.
pub struct DownloadRequest {
    pub data: DownloadData,
}

impl DownloadRequest {
    /// The request as the log shows it: the start of the file name.
    pub fn to_string(&self) -> (out: String)
        ensures
            out@ == shorten_spec(self.data.filename@, SHOWN_NAME as nat, 0),
    {
        shorten(self.data.filename.as_str(), SHOWN_NAME, 0)
    }
}

/// A file, as it is handed over.
pub struct DownloadResponseData {
    pub filename: String,
    pub content: String,
    pub mtime: String,
}

/// The answer to a [`DownloadRequest`].
pub struct DownloadResponse {
    pub data: DownloadResponseData,
}

impl DownloadResponse {
    /// The answer as the log shows it: the start of the file name.
    pub fn to_string(&self) -> (out: String)
        ensures
            out@ == shorten_spec(self.data.filename@, SHOWN_NAME as nat, 0),
    {
        shorten(self.data.filename.as_str(), SHOWN_NAME, 0)
    }
}

/// One log line of another instance.
pub struct LogData {
    pub name: String,
    pub ts: u64,
    pub plugin: String,
    pub level: String,
    pub msg: String,
}

impl LogData {
    /// The line as the log shows it, given its time of day as text: the
    /// name of the instance in 12 columns, the time, the component right
    /// aligned in 10 columns, the letter of the level, and the message.
    pub open spec fn text_at(self, time: Seq<char>) -> Seq<char> {
        pad_right_spec(self.name@, 12) + " "@ + time + " "@ + pad_left_spec(self.plugin@, 10)
            + ": ["@ + level_str_spec(self.level@) + "] "@ + self.msg@
    }

    /// The line as the log shows it, given its time of day as text.
    pub fn to_string_at(&self, time: &str) -> (out: String)
        ensures
            out@ == self.text_at(time@),
    {
        let mut out = pad_right(self.name.as_str(), 12);
        out.append(" ");
        out.append(time);
        out.append(" ");
        out.append(pad_left(self.plugin.as_str(), 10).as_str());
        out.append(": [");
        out.append(level_str(self.level.as_str()));
        out.append("] ");
        out.append(self.msg.as_str());
        out
    }

    /// The line as the log shows it, with the time of day in the time zone
    /// of this machine.
    pub fn to_string(&self) -> (out: String)
        requires
            self.ts <= MAX_TS,
        ensures
            exists|time: Seq<char>| out@ == self.text_at(time),
    {
        let time = ts_str(self.ts);
        self.to_string_at(time.as_str())
    }
}

/// Hands a log line to an instance.
pub struct LogRequest {
    pub data: LogData,
}

impl LogRequest {
    /// The request as the log shows it: the message.
    pub fn to_string(&self) -> (out: String)
        ensures
            out@ == self.data.msg@,
    {
        self.data.msg.clone()
    }
}

/// Asks an instance what a folder holds.
pub struct GetFolderMetaRequest {
    pub foldername: String,
}

impl GetFolderMetaRequest {
    /// The request as the log shows it: the name of the folder.
    pub fn to_string(&self) -> (out: String)
        ensures
            out@ == self.foldername@,
    {
        self.foldername.clone()
    }
}

/// Asks an instance to remove a file.
#[derive(Debug)]
pub struct RemoveRequest {
    pub filename: String,
}

impl RemoveRequest {
    /// The request as the log shows it: the name of the file.
    pub fn to_string(&self) -> (out: String)
        ensures
            out@ == self.filename@,
    {
        self.filename.clone()
    }
}

/// The address of the interface `path` of the instance at `ip`.
pub open spec fn url_spec(ip: Seq<char>, path: Seq<char>) -> Seq<char> {
    "http://"@ + ip + ":"@ + decimal_spec(WEB_PORT as nat) + "/"@ + path
}

/// The address to which a request for `path` is sent.
pub fn url(ip: &str, path: &str) -> (out: String)
    ensures
        out@ == url_spec(ip@, path@),
{
    let mut out = String::from_str("http://");
    out.append(ip);
    out.append(":");
    push_decimal(&mut out, WEB_PORT as u64);
    out.append("/");
    out.append(path);
    out
}

/// How a request ended.
#[derive(Debug)]
pub enum Outcome {
    /// The instance answered with success; `body` is what it sent.
    Success { body: String },
    /// The instance answered with the HTTP status `status`, which is no
    /// success.
    Refused { status: String },
    /// No answer came; `error` says why.
    Failed { error: String },
}

/// An [`Outcome`] as a plain value.
pub enum OutcomeView {
    Success { body: Seq<char> },
    Refused { status: Seq<char> },
    Failed { error: Seq<char> },
}

impl View for Outcome {
    type V = OutcomeView;

    open spec fn view(&self) -> OutcomeView {
        match *self {
            Outcome::Success { body } => OutcomeView::Success { body: body@ },
            Outcome::Refused { status } => OutcomeView::Refused { status: status@ },
            Outcome::Failed { error } => OutcomeView::Failed { error: error@ },
        }
    }
}

/// The log line that announces the command `cmd` for the device
/// `device_name`.
pub open spec fn post_cmd_start_spec(device_name: Seq<char>, cmd: Seq<char>) -> Seq<char> {
    "-> `"@ + device_name + "`: `"@ + cmd + "`"@
}

/// The log line for the outcome of that command.
pub open spec fn post_cmd_end_spec(
    module: Seq<char>,
    device_name: Seq<char>,
    ip: Seq<char>,
    cmd: Seq<char>,
    outcome: OutcomeView,
) -> EffectView {
    match outcome {
        OutcomeView::Success { body } => log_effect(
            Level::Info,
            module,
            "<- `"@ + device_name + "`: `"@ + cmd + "`: `"@ + body + "`"@,
        ),
        OutcomeView::Refused { status } => log_effect(
            Level::Warn,
            module,
            "Failed to post cmd to "@ + ip + " `"@ + cmd + "`: HTTP "@ + status,
        ),
        OutcomeView::Failed { error } => log_effect(
            Level::Warn,
            module,
            "Error posting cmd to "@ + ip + " `"@ + cmd + "`: "@ + error,
        ),
    }
}

/// Before a command is posted to a device: the line that announces it.
pub fn post_cmd_start(module: &str, device_name: &str, cmd: &CmdRequest) -> (out: Effect)
    ensures
        out@ == log_effect(Level::Info, module@, post_cmd_start_spec(device_name@, cmd.cmd@)),
{
    let mut text = String::from_str("-> `");
    text.append(device_name);
    text.append("`: `");
    text.append(cmd.cmd.as_str());
    text.append("`");
    Effect::info(module, text.as_str())
}

/// After a command was posted to a device: the line that reports how it
/// ended.
pub fn post_cmd_end(
    module: &str,
    device_name: &str,
    ip: &str,
    cmd: &CmdRequest,
    outcome: &Outcome,
) -> (out: Effect)
    ensures
        out@ == post_cmd_end_spec(module@, device_name@, ip@, cmd.cmd@, outcome@),
{
    match outcome {
        Outcome::Success { body } => {
            let mut text = String::from_str("<- `");
            text.append(device_name);
            text.append("`: `");
            text.append(cmd.cmd.as_str());
            text.append("`: `");
            text.append(body.as_str());
            text.append("`");
            Effect::info(module, text.as_str())
        },
        Outcome::Refused { status } => {
            let mut text = String::from_str("Failed to post cmd to ");
            text.append(ip);
            text.append(" `");
            text.append(cmd.cmd.as_str());
            text.append("`: HTTP ");
            text.append(status.as_str());
            Effect::warn(module, text.as_str())
        },
        Outcome::Failed { error } => {
            let mut text = String::from_str("Error posting cmd to ");
            text.append(ip);
            text.append(" `");
            text.append(cmd.cmd.as_str());
            text.append("`: ");
            text.append(error.as_str());
            Effect::warn(module, text.as_str())
        },
    }
}

/// The log line for the outcome of a transfer: `verb` is `upload` or
/// `download`, `shown` the file as the log shows it.
pub open spec fn transfer_end_spec(
    module: Seq<char>,
    verb: Seq<char>,
    ip: Seq<char>,
    shown: Seq<char>,
    outcome: OutcomeView,
) -> EffectView {
    match outcome {
        OutcomeView::Success { body } => log_effect(
            Level::Info,
            module,
            "Response from "@ + ip + " for `"@ + shown + "`: Ok"@,
        ),
        OutcomeView::Refused { status } => log_effect(
            Level::Warn,
            module,
            "Failed to post "@ + verb + " to "@ + ip + " `"@ + shown + "`: HTTP "@ + status,
        ),
        OutcomeView::Failed { error } => log_effect(
            Level::Warn,
            module,
            "Error posting "@ + verb + " to "@ + ip + " `"@ + shown + "`: "@ + error,
        ),
    }
}

/// The log line that announces a transfer.
pub open spec fn transfer_start_spec(verb: Seq<char>, ip: Seq<char>, shown: Seq<char>) -> Seq<
    char,
> {
    "POST /"@ + verb + " to "@ + ip + " `"@ + shown + "`"@
}

fn transfer_start(module: &str, verb: &str, ip: &str, shown: &str) -> (out: Effect)
    ensures
        out@ == log_effect(Level::Info, module@, transfer_start_spec(verb@, ip@, shown@)),
{
    let mut text = String::from_str("POST /");
    text.append(verb);
    text.append(" to ");
    text.append(ip);
    text.append(" `");
    text.append(shown);
    text.append("`");
    Effect::info(module, text.as_str())
}

fn transfer_end(module: &str, verb: &str, ip: &str, shown: &str, outcome: &Outcome) -> (out:
    Effect)
    ensures
        out@ == transfer_end_spec(module@, verb@, ip@, shown@, outcome@),
{
    match outcome {
        Outcome::Success { body } => {
            let mut text = String::from_str("Response from ");
            text.append(ip);
            text.append(" for `");
            text.append(shown);
            text.append("`: Ok");
            Effect::info(module, text.as_str())
        },
        Outcome::Refused { status } => {
            let mut text = String::from_str("Failed to post ");
            text.append(verb);
            text.append(" to ");
            text.append(ip);
            text.append(" `");
            text.append(shown);
            text.append("`: HTTP ");
            text.append(status.as_str());
            Effect::warn(module, text.as_str())
        },
        Outcome::Failed { error } => {
            let mut text = String::from_str("Error posting ");
            text.append(verb);
            text.append(" to ");
            text.append(ip);
            text.append(" `");
            text.append(shown);
            text.append("`: ");
            text.append(error.as_str());
            Effect::warn(module, text.as_str())
        },
    }
}

/// Before a file is uploaded: the line that announces it.
pub fn post_upload_start(module: &str, ip: &str, upload: &UploadRequest) -> (out: Effect)
    ensures
        out@ == log_effect(
            Level::Info,
            module@,
            transfer_start_spec(
                "upload"@,
                ip@,
                shorten_spec(upload.filename@, SHOWN_NAME as nat, 0),
            ),
        ),
{
    transfer_start(module, "upload", ip, upload.to_string().as_str())
}

/// After a file was uploaded: the line that reports how it ended.
pub fn post_upload_end(module: &str, ip: &str, upload: &UploadRequest, outcome: &Outcome) -> (out:
    Effect)
    ensures
        out@ == transfer_end_spec(
            module@,
            "upload"@,
            ip@,
            shorten_spec(upload.filename@, SHOWN_NAME as nat, 0),
            outcome@,
        ),
{
    transfer_end(module, "upload", ip, upload.to_string().as_str(), outcome)
}

/// Before a file is asked for: the line that announces it.
pub fn post_download_start(module: &str, ip: &str, download: &DownloadRequest) -> (out: Effect)
    ensures
        out@ == log_effect(
            Level::Info,
            module@,
            transfer_start_spec(
                "download"@,
                ip@,
                shorten_spec(download.data.filename@, SHOWN_NAME as nat, 0),
            ),
        ),
{
    transfer_start(module, "download", ip, download.to_string().as_str())
}

/// After a file was asked for: the line that reports how it ended.
pub fn post_download_end(
    module: &str,
    ip: &str,
    download: &DownloadRequest,
    outcome: &Outcome,
) -> (out: Effect)
    ensures
        out@ == transfer_end_spec(
            module@,
            "download"@,
            ip@,
            shorten_spec(download.data.filename@, SHOWN_NAME as nat, 0),
            outcome@,
        ),
{
    transfer_end(module, "download", ip, download.to_string().as_str(), outcome)
}

/// The log line for the outcome of the removal of `filename` at `ip`.
pub open spec fn post_remove_end_spec(
    module: Seq<char>,
    ip: Seq<char>,
    filename: Seq<char>,
    outcome: OutcomeView,
) -> EffectView {
    match outcome {
        OutcomeView::Success { body } => log_effect(
            Level::Info,
            module,
            "<- `"@ + ip + "`: remove `"@ + filename + "`: Ok"@,
        ),
        OutcomeView::Refused { status } => log_effect(
            Level::Warn,
            module,
            "Failed to post remove to `"@ + ip + "`: remove `"@ + filename + "`: HTTP "@ + status,
        ),
        OutcomeView::Failed { error } => log_effect(
            Level::Warn,
            module,
            "Error posting remove to `"@ + ip + "`: remove `"@ + filename + "`: "@ + error,
        ),
    }
}

/// Before a removal is asked for: the line that announces it.
pub fn post_remove_start(module: &str, ip: &str, remove_req: &RemoveRequest) -> (out: Effect)
    ensures
        out@ == log_effect(
            Level::Info,
            module@,
            "-> `"@ + ip@ + "`: remove `"@ + remove_req.filename@ + "`"@,
        ),
{
    let mut text = String::from_str("-> `");
    text.append(ip);
    text.append("`: remove `");
    text.append(remove_req.filename.as_str());
    text.append("`");
    Effect::info(module, text.as_str())
}

/// After a removal was asked for: the line that reports how it ended.
pub fn post_remove_end(module: &str, ip: &str, remove_req: &RemoveRequest, outcome: &Outcome) -> (out:
    Effect)
    ensures
        out@ == post_remove_end_spec(module@, ip@, remove_req.filename@, outcome@),
{
    match outcome {
        Outcome::Success { body } => {
            let mut text = String::from_str("<- `");
            text.append(ip);
            text.append("`: remove `");
            text.append(remove_req.filename.as_str());
            text.append("`: Ok");
            Effect::info(module, text.as_str())
        },
        Outcome::Refused { status } => {
            let mut text = String::from_str("Failed to post remove to `");
            text.append(ip);
            text.append("`: remove `");
            text.append(remove_req.filename.as_str());
            text.append("`: HTTP ");
            text.append(status.as_str());
            Effect::warn(module, text.as_str())
        },
        Outcome::Failed { error } => {
            let mut text = String::from_str("Error posting remove to `");
            text.append(ip);
            text.append("`: remove `");
            text.append(remove_req.filename.as_str());
            text.append("`: ");
            text.append(error.as_str());
            Effect::warn(module, text.as_str())
        },
    }
}

/// What the request for the content of `foldername` at `ip` came to: the
/// line to log on success, or the text of the error.
pub open spec fn folder_meta_end_spec(
    module: Seq<char>,
    ip: Seq<char>,
    foldername: Seq<char>,
    outcome: OutcomeView,
) -> Result<EffectView, Seq<char>> {
    match outcome {
        OutcomeView::Success { body } => Ok(
            log_effect(
                Level::Info,
                module,
                "<- POST "@ + ip + " /get/folder_meta: `"@ + foldername + "`: Ok"@,
            ),
        ),
        OutcomeView::Refused { status } => Err(
            "<- POST "@ + ip + " /get/folder_meta: `"@ + foldername + "`: Failed, HTTP "@ + status,
        ),
        OutcomeView::Failed { error } => Err(
            "<- POST "@ + ip + " /get/folder_meta: `"@ + foldername + "`: Failed: "@ + error,
        ),
    }
}

/// After the content of a folder was asked for: what to log, or the error
/// to report.
pub fn post_get_folder_meta_end(
    module: &str,
    ip: &str,
    folder_meta: &GetFolderMetaRequest,
    outcome: &Outcome,
) -> (out: Result<Effect, String>)
    ensures
        out matches Ok(e) ==> folder_meta_end_spec(
            module@,
            ip@,
            folder_meta.foldername@,
            outcome@,
        ) == Ok::<EffectView, Seq<char>>(e@),
        out matches Err(w) ==> folder_meta_end_spec(
            module@,
            ip@,
            folder_meta.foldername@,
            outcome@,
        ) == Err::<EffectView, Seq<char>>(w@),
{
    let mut text = String::from_str("<- POST ");
    text.append(ip);
    text.append(" /get/folder_meta: `");
    text.append(folder_meta.foldername.as_str());
    match outcome {
        Outcome::Success { body } => {
            text.append("`: Ok");
            Ok(Effect::info(module, text.as_str()))
        },
        Outcome::Refused { status } => {
            text.append("`: Failed, HTTP ");
            text.append(status.as_str());
            Err(text)
        },
        Outcome::Failed { error } => {
            text.append("`: Failed: ");
            text.append(error.as_str());
            Err(text)
        },
    }
}

/// The log line for a file that was downloaded and then written, or not:
/// `written` is `None` on success, else the error of the write.
pub open spec fn download_saved_spec(
    module: Seq<char>,
    filename: Seq<char>,
    written: Option<Seq<char>>,
) -> EffectView {
    match written {
        None => log_effect(Level::Info, module, "Downloaded file `"@ + filename + "` saved"@),
        Some(error) => log_effect(
            Level::Warn,
            module,
            "Failed to write downloaded file `"@ + filename + "`: "@ + error,
        ),
    }
}

/// After a downloaded file was written, or could not be: the line that
/// reports it.
pub fn download_file_saved(module: &str, filename: &str, written: &Option<String>) -> (out: Effect)
    ensures
        out@ == download_saved_spec(
            module@,
            filename@,
            match *written {
                Some(e) => Some(e@),
                None => None,
            },
        ),
{
    match written {
        None => {
            let mut text = String::from_str("Downloaded file `");
            text.append(filename);
            text.append("` saved");
            Effect::info(module, text.as_str())
        },
        Some(error) => {
            let mut text = String::from_str("Failed to write downloaded file `");
            text.append(filename);
            text.append("`: ");
            text.append(error.as_str());
            Effect::warn(module, text.as_str())
        },
    }
}

/// After a download failed: the line that reports it.
pub fn download_file_failed(module: &str, remote_path: &str, error: &str) -> (out: Effect)
    ensures
        out@ == log_effect(
            Level::Warn,
            module@,
            "Failed to download file `"@ + remote_path@ + "`: "@ + error@,
        ),
{
    let mut text = String::from_str("Failed to download file `");
    text.append(remote_path);
    text.append("`: ");
    text.append(error);
    Effect::warn(module, text.as_str())
}

} // verus!
