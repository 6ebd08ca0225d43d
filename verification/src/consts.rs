//! Fixed words of the command protocol.

use vstd::prelude::*;

verus! {

/// Routing marker: the first word of a command addressed to a component.
pub const P: &'static str = "p";

/// Top-level commands that end the process.
pub const Q: &'static str = "q";

pub const QUIT: &'static str = "quit";

pub const EXIT: &'static str = "exit";

/// Starts a trailing comment.
pub const COMMENT: char = '#';

/// Shown where a value is not known.
pub const NA: &'static str = "N/A";

/// Logged by a component when it is constructed and when it starts up.
pub const NEW: &'static str = "new";

pub const INIT: &'static str = "init";

/// Name of the pinned command panel.
pub const COMMAND: &'static str = "command";

/// Rows at the bottom of the terminal that are kept for the command panel.
pub const COMMAND_ROWS: u16 = 3;

/// The port on which every instance serves its web interface.
pub const WEB_PORT: u16 = 9090;

/// The address on which the web interface listens.
pub const WEB_IP: &'static str = "0.0.0.0";

/// How many envelopes the bus holds before senders wait.
pub const MSG_SIZE: usize = 4096;

/// Where the editor keeps its files.
pub const NAS_EDITOR_FOLDER: &'static str = "./nas/editor";

/// Where downloaded music is kept.
pub const NAS_MUSIC_FOLDER: &'static str = "./nas/music";

/// Where uploads arrive on the server.
pub const NAS_UPLOAD_FOLDER: &'static str = "./nas/upload";

/// The warning for work that needs the server before its address is known.
pub const SERVER_IP_NOT_SET: &'static str = "Server IP is not set";

/// The version of the program, as it reports itself.
pub const VERSION: &'static str = "0.1.0";

} // verus!
