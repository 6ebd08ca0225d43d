//! The script component: it runs the commands of the startup script.

use vstd::prelude::*;
use vstd::string::*;
use crate::arguments::Mode;
use crate::messages::{
    effects_view, log_effect, one_effect, push_effect, Action, Effect, EffectView, Level,
};
use crate::text::{concat, lines, lines_spec, trim, trim_spec, words_view};
use crate::utils::common::MsgTemplate;

verus! {

/// The name under which this component is addressed.
pub const MODULE: &'static str = "script";

/// The scripts of the configuration: one for each mode.
#[derive(Debug)]
pub struct Config {
    pub script_gui: String,
    pub script_cli: String,
}

/// The script component.
#[derive(Debug)]
pub struct PluginUnit {
    pub mode: Mode,
    pub script: String,
}

/// The commands among the first `upto` of `lines`: each line without the
/// white space around it, empty lines left out.
pub open spec fn commands_of(lines: Seq<Seq<char>>, upto: nat) -> Seq<EffectView>
    decreases upto,
{
    if upto == 0 {
        Seq::empty()
    } else {
        let before = commands_of(lines, (upto - 1) as nat);
        let line = trim_spec(lines[upto - 1]);
        if line.len() == 0 {
            before
        } else {
            before.push(EffectView::Send { origin: MODULE@, cmd: line })
        }
    }
}

/// The commands of a script, in order.
pub open spec fn script_commands_spec(script: Seq<char>) -> Seq<EffectView> {
    commands_of(lines_spec(script), lines_spec(script).len())
}

/// Reads the commands of a script: one a line.
pub fn script_commands(script: &str) -> (out: Vec<Effect>)
    ensures
        effects_view(out@) == script_commands_spec(script@),
{
    let all = lines(script);
    let ghost spec_lines = lines_spec(script@);
    let mut out: Vec<Effect> = Vec::new();
    let mut i: usize = 0;
    assert(effects_view(out@) =~= commands_of(spec_lines, 0));
    while i < all.len()
        invariant
            i <= all.len(),
            words_view(all@) == spec_lines,
            effects_view(out@) == commands_of(spec_lines, i as nat),
        decreases all.len() - i,
    {
        proof {
            assert(spec_lines[i as int] == all@[i as int]@);
        }
        let line = trim(all[i].as_str());
        if line.as_str().unicode_len() > 0 {
            push_effect(&mut out, Effect::cmd(MODULE, line.as_str()));
        }
        i += 1;
    }
    out
}

impl PluginUnit {
    /// The component for the script file `script`.
    pub fn new(mode: Mode, script: &str) -> (out: PluginUnit)
        ensures
            out.mode == mode,
            out.script@ == script@,
    {
        PluginUnit { mode, script: String::from_str(script) }
    }

    /// Runs the script of the mode of this process: says which, then gives
    /// its commands.
    pub fn init(&self, config: &Config) -> (out: Vec<Effect>)
        ensures
            effects_view(out@) == seq![
                log_effect(
                    Level::Info,
                    MODULE@,
                    "  Running scripts for mode: "@ + self.mode.debug_name(),
                ),
            ] + script_commands_spec(
                match self.mode {
                    Mode::Gui => config.script_gui@,
                    Mode::Cli => config.script_cli@,
                },
            ),
    {
        let (name, script) = match self.mode {
            Mode::Gui => ("Gui", config.script_gui.as_str()),
            Mode::Cli => ("Cli", config.script_cli.as_str()),
        };
        let mut out: Vec<Effect> = Vec::new();
        push_effect(
            &mut out,
            Effect::info(MODULE, concat("  Running scripts for mode: ", name).as_str()),
        );
        let ghost head = effects_view(out@);
        let mut commands = script_commands(script);
        let ghost tail = effects_view(commands@);
        out.append(&mut commands);
        assert(effects_view(out@) =~= head + tail);
        out
    }

    /// Handles a command: `show` tells mode and script file.
    pub fn handle_action(&self, action: Action) -> (out: Vec<Effect>)
        ensures
            effects_view(out@) == match action {
                Action::Help => seq![log_effect(Level::Info, MODULE@, "help"@)],
                Action::Show => seq![
                    log_effect(Level::Info, MODULE@, "show"@),
                    log_effect(Level::Info, MODULE@, "  Mode: "@ + self.mode.debug_name()),
                    log_effect(Level::Info, MODULE@, "  Script: "@ + self.script@),
                ],
                _ => seq![
                    log_effect(
                        Level::Warn,
                        MODULE@,
                        MsgTemplate::UnsupportedAction.format_spec(action.name(), ""@, ""@),
                    ),
                ],
            },
    {
        match action {
            Action::Help => one_effect(Effect::info(MODULE, "help")),
            Action::Show => {
                let name = match self.mode {
                    Mode::Gui => "Gui",
                    Mode::Cli => "Cli",
                };
                let mut out: Vec<Effect> = Vec::new();
                push_effect(&mut out, Effect::info(MODULE, "show"));
                push_effect(&mut out, Effect::info(MODULE, concat("  Mode: ", name).as_str()));
                push_effect(
                    &mut out,
                    Effect::info(MODULE, concat("  Script: ", self.script.as_str()).as_str()),
                );
                assert(effects_view(out@) =~= seq![
                    log_effect(Level::Info, MODULE@, "show"@),
                    log_effect(Level::Info, MODULE@, "  Mode: "@ + self.mode.debug_name()),
                    log_effect(Level::Info, MODULE@, "  Script: "@ + self.script@),
                ]);
                out
            },
            _ => one_effect(
                Effect::warn(
                    MODULE,
                    MsgTemplate::UnsupportedAction.format(action.as_ref(), "", "").as_str(),
                ),
            ),
        }
    }
}

} // verus!
