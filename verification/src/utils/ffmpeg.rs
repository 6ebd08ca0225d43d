//! The converter: what is said about the program that converts music.

use vstd::prelude::*;
use vstd::string::*;
use crate::messages::{effects_view, log_effect, push_effect, Effect, EffectView, Level};
use crate::text::{concat, lines, lines_spec, split_whitespace, ws_words};
use crate::utils::yt_dlp::{bool_text, version_or_na};

verus! {

/// The name under which the converter logs.
pub const MODULE: &'static str = "ffmpeg";

/// The program.
pub const BIN: &'static str = "ffmpeg";

/// The argument that asks the program for its version.
pub const ARG_VERSION: &'static str = "-version";

/// What is known of the converter.
#[derive(Debug)]
pub struct Ffmpeg {
    pub is_available: bool,
    pub version: Option<String>,
}

/// The version in what the program printed: the third word of the first
/// line, as in `ffmpeg version 4.4.2 ...`.
pub open spec fn parse_version_spec(stdout: Seq<char>) -> Option<Seq<char>> {
    if lines_spec(stdout).len() > 0 && ws_words(lines_spec(stdout)[0]).len() > 2 {
        Some(ws_words(lines_spec(stdout)[0])[2])
    } else {
        None
    }
}

/// Reads the version from what the program printed.
pub fn parse_version(stdout: &str) -> (out: Option<String>)
    ensures
        out is Some == parse_version_spec(stdout@) is Some,
        out matches Some(v) ==> parse_version_spec(stdout@) == Some(v@),
{
    let all = lines(stdout);
    if all.len() == 0 {
        return None;
    }
    proof {
        assert(lines_spec(stdout@)[0] == all@[0]@);
    }
    let found = split_whitespace(all[0].as_str());
    if found.len() > 2 {
        proof {
            assert(ws_words(all@[0]@)[2] == found@[2]@);
        }
        Some(found[2].clone())
    } else {
        None
    }
}

impl Ffmpeg {
    /// What `show` says of the converter.
    pub open spec fn show_spec(self) -> Seq<EffectView> {
        seq![
            log_effect(Level::Info, MODULE@, "show"@),
            log_effect(Level::Info, MODULE@, "  available: "@ + bool_text(self.is_available)),
            log_effect(Level::Info, MODULE@, "  version: "@ + version_or_na(self.version)),
        ]
    }

    /// The converter, of which nothing is known yet.
    pub fn new() -> (out: Ffmpeg)
        ensures
            !out.is_available,
            out.version is None,
    {
        Ffmpeg { is_available: false, version: None }
    }

    /// `show`: what is known of the converter.
    pub fn handle_cmd_show(&self) -> (out: Vec<Effect>)
        ensures
            effects_view(out@) == self.show_spec(),
    {
        let mut out: Vec<Effect> = Vec::new();
        push_effect(&mut out, Effect::info(MODULE, "show"));
        let available = if self.is_available {
            "true"
        } else {
            "false"
        };
        push_effect(&mut out, Effect::info(MODULE, concat("  available: ", available).as_str()));
        let version = match &self.version {
            Some(v) => v.as_str(),
            None => "N/A",
        };
        push_effect(&mut out, Effect::info(MODULE, concat("  version: ", version).as_str()));
        assert(effects_view(out@) =~= self.show_spec());
        out
    }
}

} // verus!
