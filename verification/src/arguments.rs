//! What the process is started with.

use vstd::prelude::*;
use vstd::string::*;

verus! {

pub const MODULE: &'static str = "arguments";

/// Name of the program.
pub const NAME: &'static str = "cng4";

pub const DEFAULT_MODE: Mode = Mode::Gui;

pub const DEFAULT_SCRIPT: &'static str = "script.toml";

/// How the process talks to its user: line by line, or with panels.
#[derive(Clone, Copy, Debug, PartialEq, Eq, Structural)]
pub enum Mode {
    Cli,
    Gui,
}

impl Mode {
    /// The word for this mode on the command line.
    pub open spec fn name(self) -> Seq<char> {
        match self {
            Mode::Cli => "cli"@,
            Mode::Gui => "gui"@,
        }
    }

    /// The mode as it is spelled in a type: capitalised.
    pub open spec fn debug_name(self) -> Seq<char> {
        match self {
            Mode::Cli => "Cli"@,
            Mode::Gui => "Gui"@,
        }
    }

    /// The mode that the word `s` writes, if any.
    pub open spec fn named(s: Seq<char>) -> Option<Mode> {
        if s == "cli"@ {
            Some(Mode::Cli)
        } else if s == "gui"@ {
            Some(Mode::Gui)
        } else {
            None
        }
    }

    /// The word for this mode.
    pub fn as_ref(&self) -> (out: &'static str)
        ensures
            out@ == self.name(),
    {
        match self {
            Mode::Cli => "cli",
            Mode::Gui => "gui",
        }
    }

    /// The word for this mode, as an owned string.
    pub fn to_string(&self) -> (out: String)
        ensures
            out@ == self.name(),
    {
        String::from_str(self.as_ref())
    }

    /// Reads a mode from its word.
    pub fn parse(s: &str) -> (out: Option<Mode>)
        ensures
            out == Mode::named(s@),
    {
        if s.eq("cli") {
            Some(Mode::Cli)
        } else if s.eq("gui") {
            Some(Mode::Gui)
        } else {
            None
        }
    }

    /// Writing a mode and reading the word back gives the same mode.
    pub proof fn lemma_named_name(x: Mode)
        ensures
            Mode::named(x.name()) == Some(x),
    {
        reveal_strlit("cli");
        reveal_strlit("gui");
        assert("cli"@[0] == 'c');
        assert("gui"@[0] == 'g');
    }
}

/// The arguments of the process.
#[derive(Debug)]
pub struct Arguments {
    pub mode: Mode,
    pub script: String,
}

impl Arguments {
    /// The line that reports the arguments at startup.
    pub open spec fn text_spec(self) -> Seq<char> {
        "[arguments] mode: "@ + self.mode.debug_name() + ", script: "@ + self.script@
    }

    /// The arguments in one line, for the log.
    pub fn to_string(&self) -> (out: String)
        ensures
            out@ == self.text_spec(),
    {
        let mut out = String::from_str("[arguments] mode: ");
        match self.mode {
            Mode::Cli => out.append("Cli"),
            Mode::Gui => out.append("Gui"),
        }
        out.append(", script: ");
        out.append(self.script.as_str());
        out
    }
}

} // verus!
