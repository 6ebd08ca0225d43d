//! The web interface: other instances post commands, files and log lines to
//! it. Here is decided what is accepted and how each request is answered.

use vstd::prelude::*;
use vstd::string::*;
use crate::messages::{
    effects_view, log_effect, one_effect, push_effect, Action, Effect, EffectView, Level,
};
use crate::text::{chars_of, concat3, split, split_spec, words_view};
use crate::utils::common::MsgTemplate;

verus! {

/// The name under which this component is addressed.
pub const MODULE: &'static str = "web";

/// The most bytes that a request may hold: 100 MB.
pub const MAX_SIZE: usize = 104857600;

/// Whether a file name may be used: it is a path below the working folder.
/// It does not start at the root, and none of its parts, as slashes divide
/// them, is `..`.
pub open spec fn is_valid_filename_spec(path: Seq<char>) -> bool {
    !(path.len() > 0 && path[0] == '/') && forall|i: int|
        0 <= i < split_spec(path, '/').len() ==> (#[trigger] split_spec(path, '/')[i]) != ".."@
}

/// Whether a file name that came with a request may be used.
pub fn is_valid_filename(path: &str) -> (out: bool)
    ensures
        out == is_valid_filename_spec(path@),
{
    let v = chars_of(path);
    if v.len() > 0 && v[0] == '/' {
        return false;
    }
    let parts = split(path, '/');
    let ghost spec_parts = split_spec(path@, '/');
    let mut i: usize = 0;
    while i < parts.len()
        invariant
            i <= parts.len(),
            words_view(parts@) == spec_parts,
            spec_parts == split_spec(path@, '/'),
            v@ == path@,
            !(v.len() > 0 && v@[0] == '/'),
            forall|k: int| 0 <= k < i ==> (#[trigger] spec_parts[k]) != ".."@,
        decreases parts.len() - i,
    {
        proof {
            assert(spec_parts[i as int] == parts@[i as int]@);
        }
        if parts[i].as_str().eq("..") {
            return false;
        }
        i += 1;
    }
    true
}

/// The answer to a request: a status of HTTP, and a body.
#[derive(Debug)]
pub struct Response {
    pub status: u16,
    pub body: String,
}

/// The line that reports a request for the interface `route`.
pub open spec fn request_spec(route: Seq<char>, what: Seq<char>) -> EffectView {
    log_effect(Level::Info, MODULE@, "API: POST /"@ + route + ": `"@ + what + "`"@)
}

/// The line that reports that a request was served.
pub open spec fn done_spec(route: Seq<char>, what: Seq<char>) -> EffectView {
    log_effect(Level::Info, MODULE@, "API: POST /"@ + route + ": `"@ + what + "` done"@)
}

/// The line that reports a request.
pub fn request_line(route: &str, what: &str) -> (out: Effect)
    ensures
        out@ == request_spec(route@, what@),
{
    let mut text = String::from_str("API: POST /");
    text.append(route);
    text.append(": `");
    text.append(what);
    text.append("`");
    Effect::info(MODULE, text.as_str())
}

/// The line that reports that a request was served.
pub fn done_line(route: &str, what: &str) -> (out: Effect)
    ensures
        out@ == done_spec(route@, what@),
{
    let mut text = String::from_str("API: POST /");
    text.append(route);
    text.append(": `");
    text.append(what);
    text.append("` done");
    Effect::info(MODULE, text.as_str())
}

/// `GET /hello`: the line for the log, and the greeting.
pub fn hello(binary_name: &str) -> (out: (Effect, Response))
    ensures
        out.0@ == log_effect(Level::Info, MODULE@, "API: GET /hello"@),
        out.1.status == 200,
        out.1.body@ == "Hello "@ + binary_name@ + "!"@,
{
    (
        Effect::info(MODULE, "API: GET /hello"),
        Response { status: 200, body: concat3("Hello ", binary_name, "!") },
    )
}

/// `POST /cmd`: the command is logged and put on the bus.
pub fn cmd(data_cmd: &str) -> (out: Vec<Effect>)
    ensures
        effects_view(out@) == seq![
            request_spec("cmd"@, data_cmd@),
            EffectView::Send { origin: MODULE@, cmd: data_cmd@ },
        ],
{
    let mut out: Vec<Effect> = Vec::new();
    push_effect(&mut out, request_line("cmd", data_cmd));
    push_effect(&mut out, Effect::cmd(MODULE, data_cmd));
    assert(effects_view(out@) =~= seq![
        request_spec("cmd"@, data_cmd@),
        EffectView::Send { origin: MODULE@, cmd: data_cmd@ },
    ]);
    out
}

/// The answer to a request whose file name may not be used.
pub fn invalid_filename() -> (out: Response)
    ensures
        out.status == 400,
        out.body@ == "Invalid filename"@,
{
    Response { status: 400, body: String::from_str("Invalid filename") }
}

/// `POST /upload`, before the file is written: the request is logged, and
/// refused where the file name may not be used.
pub fn upload(filename: &str) -> (out: (Effect, Option<Response>))
    ensures
        out.0@ == request_spec("upload"@, filename@),
        out.1 is None == is_valid_filename_spec(filename@),
        out.1 matches Some(r) ==> r.status == 400 && r.body@ == "Invalid filename"@,
{
    let line = request_line("upload", filename);
    if is_valid_filename(filename) {
        (line, None)
    } else {
        (line, Some(invalid_filename()))
    }
}

/// `POST /upload`, after the file was written, or could not be: what is
/// logged, and the answer. `error` is `None` on success.
pub fn uploaded(filename: &str, error: &Option<String>) -> (out: (Effect, Response))
    ensures
        match *error {
            None => out.0@ == done_spec("upload"@, filename@) && out.1.status == 200
                && out.1.body@.len() == 0,
            Some(e) => out.0@ == log_effect(
                Level::Warn,
                MODULE@,
                "Failed to write `"@ + filename@ + "`: "@ + e@,
            ) && out.1.status == 500 && out.1.body@ == "Failed to write `{filename}`: {e}"@,
        },
{
    match error {
        None => (done_line("upload", filename), Response { status: 200, body: String::new() }),
        Some(e) => {
            let mut text = String::from_str("Failed to write `");
            text.append(filename);
            text.append("`: ");
            text.append(e.as_str());
            (
                Effect::warn(MODULE, text.as_str()),
                Response {
                    status: 500,
                    body: String::from_str("Failed to write `{filename}`: {e}"),
                },
            )
        },
    }
}

/// `POST /remove`, after the file was removed, or could not be: what is
/// logged, and the answer. `error` is `None` on success.
pub fn removed(filename: &str, error: &Option<String>) -> (out: (Effect, Response))
    ensures
        match *error {
            None => out.0@ == done_spec("remove"@, filename@) && out.1.status == 200
                && out.1.body@.len() == 0,
            Some(e) => out.0@ == log_effect(
                Level::Warn,
                MODULE@,
                "Failed to remove `"@ + filename@ + "`: "@ + e@,
            ) && out.1.status == 500 && out.1.body@ == "Failed to remove `"@ + filename@ + "`: "@
                + e@,
        },
{
    match error {
        None => (done_line("remove", filename), Response { status: 200, body: String::new() }),
        Some(e) => {
            let mut text = String::from_str("Failed to remove `");
            text.append(filename);
            text.append("`: ");
            text.append(e.as_str());
            (Effect::warn(MODULE, text.as_str()), Response { status: 500, body: text })
        },
    }
}

/// The web interface.
#[derive(Debug)]
pub struct PluginUnit {}

impl PluginUnit {
    /// The component.
    pub fn new() -> PluginUnit {
        PluginUnit {  }
    }

    /// The line that says where the interface listens.
    pub fn init(&self, ip: &str, port: u16) -> (out: Effect)
        ensures
            out@ == log_effect(
                Level::Info,
                MODULE@,
                "  Running web server on "@ + ip@ + ":"@ + crate::text::decimal_spec(port as nat)
                    + "..."@,
            ),
    {
        let mut text = String::from_str("  Running web server on ");
        text.append(ip);
        text.append(":");
        crate::text::push_decimal(&mut text, port as u64);
        text.append("...");
        Effect::info(MODULE, text.as_str())
    }

    /// Handles a command.
    pub fn handle_action(&self, action: Action) -> (out: Vec<Effect>)
        ensures
            effects_view(out@) == match action {
                Action::Help => seq![log_effect(Level::Info, MODULE@, "help"@)],
                Action::Show => seq![log_effect(Level::Info, MODULE@, "show"@)],
                _ => seq![
                    log_effect(
                        Level::Warn,
                        MODULE@,
                        MsgTemplate::UnsupportedAction.format_spec(action.name(), ""@, ""@),
                    ),
                ],
            },
    {
        match action {
            Action::Help => one_effect(Effect::info(MODULE, "help")),
            Action::Show => one_effect(Effect::info(MODULE, "show")),
            _ => one_effect(
                Effect::warn(
                    MODULE,
                    MsgTemplate::UnsupportedAction.format(action.as_ref(), "", "").as_str(),
                ),
            ),
        }
    }
}

} // verus!
