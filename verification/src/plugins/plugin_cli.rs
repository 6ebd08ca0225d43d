//! The line interface: what is typed on the terminal, line by line, is put
//! on the bus.

use vstd::prelude::*;
use vstd::string::*;
use crate::messages::{log_effect, one_effect, Action, Effect, EffectView, Level};
use crate::text::concat;
use crate::utils::common::MsgTemplate;

verus! {

/// The name under which this component is addressed.
pub const MODULE: &'static str = "cli";

/// Seconds before the first prompt, so that the startup can be read.
pub const STARTUP_DELAY_SECS: u64 = 3;

/// The prompt: the time, and a mark.
pub fn prompt(time: &str) -> (out: String)
    ensures
        out@ == time@ + " > "@,
{
    concat(time, " > ")
}

/// The line that says that input is awaited soon.
pub fn starting() -> (out: Effect)
    ensures
        out@ == log_effect(
            Level::Info,
            MODULE@,
            "Waiting for 3 seconds before starting CLI input loop..."@,
        ),
{
    Effect::info(MODULE, "Waiting for 3 seconds before starting CLI input loop...")
}

/// The effect of a line that was typed: it is put on the bus as a command.
pub fn entered(line: &str) -> (out: Effect)
    ensures
        out@ == (EffectView::Send { origin: MODULE@, cmd: line@ }),
{
    Effect::cmd(MODULE, line)
}

/// The warning for input that could not be read.
pub fn read_failed(error: &str) -> (out: Effect)
    ensures
        out@ == log_effect(Level::Warn, MODULE@, "Failed to read input. Err: "@ + error@),
{
    Effect::warn(MODULE, concat("Failed to read input. Err: ", error).as_str())
}

/// The line interface.
#[derive(Debug)]
pub struct PluginUnit {}

impl PluginUnit {
    /// The component.
    pub fn new() -> PluginUnit {
        PluginUnit {  }
    }

    /// Handles a command.
    pub fn handle_action(&self, action: Action) -> (out: Vec<Effect>)
        ensures
            crate::messages::effects_view(out@) == match action {
                Action::Help => seq![log_effect(Level::Info, MODULE@, "help"@)],
                Action::Show => seq![log_effect(Level::Info, MODULE@, "show"@)],
                _ => seq![
                    log_effect(
                        Level::Warn,
                        MODULE@,
                        MsgTemplate::UnsupportedAction.format_spec(action.name(), ""@, ""@),
                    ),
                ],
            },
    {
        match action {
            Action::Help => one_effect(Effect::info(MODULE, "help")),
            Action::Show => one_effect(Effect::info(MODULE, "show")),
            _ => one_effect(
                Effect::warn(
                    MODULE,
                    MsgTemplate::UnsupportedAction.format(action.as_ref(), "", "").as_str(),
                ),
            ),
        }
    }
}

} // verus!
