//! The configuration component: it sets the names that the process shares.

use vstd::prelude::*;
use vstd::string::*;
use crate::globals::{set_server, set_sys_name, Global};
use crate::messages::{
    effects_view, log_effect, one_effect, push_effect, Action, Effect, Level,
};
use crate::text::concat;
use crate::utils::common::MsgTemplate;

verus! {

/// The name under which this component is addressed.
pub const MODULE: &'static str = "cfg";

/// The file that holds the configuration.
pub const CFG_FILE: &'static str = "cfg.toml";

/// What the configuration says.
#[derive(Debug)]
pub struct Config {
    pub name: String,
    pub server: String,
}

/// The text, or nothing.
pub open spec fn or_empty(s: Option<String>) -> Seq<char> {
    match s {
        Some(s) => s@,
        None => Seq::empty(),
    }
}

/// The configuration component.
#[derive(Debug)]
pub struct PluginUnit {}

impl PluginUnit {
    /// The component.
    pub fn new() -> PluginUnit {
        PluginUnit {  }
    }

    /// Takes the configuration: the name of the system and that of the
    /// server are set, and both are logged. The address of the server stays.
    pub fn init(&self, config: &Config, g: &mut Global) -> (out: Vec<Effect>)
        ensures
            final(g).sys_name@ == config.name@,
            final(g).server@ == config.server@,
            final(g).server_ip == old(g).server_ip,
            effects_view(out@) == seq![
                log_effect(Level::Info, MODULE@, "  Name: "@ + config.name@),
                log_effect(Level::Info, MODULE@, "  Server: "@ + config.server@),
            ],
    {
        let mut out: Vec<Effect> = Vec::new();
        push_effect(&mut out, Effect::info(MODULE, concat("  Name: ", config.name.as_str()).as_str()));
        push_effect(
            &mut out,
            Effect::info(MODULE, concat("  Server: ", config.server.as_str()).as_str()),
        );
        set_sys_name(g, config.name.as_str());
        set_server(g, config.server.as_str());
        assert(effects_view(out@) =~= seq![
            log_effect(Level::Info, MODULE@, "  Name: "@ + config.name@),
            log_effect(Level::Info, MODULE@, "  Server: "@ + config.server@),
        ]);
        out
    }

    /// Handles a command: `show` tells the shared names.
    pub fn handle_action(&self, action: Action, g: &Global) -> (out: Vec<Effect>)
        ensures
            effects_view(out@) == match action {
                Action::Help => seq![log_effect(Level::Info, MODULE@, "help"@)],
                Action::Show => seq![
                    log_effect(Level::Info, MODULE@, "show"@),
                    log_effect(Level::Info, MODULE@, "  Script: cfg.toml"@),
                    log_effect(Level::Info, MODULE@, "  Name: "@ + g.sys_name@),
                    log_effect(Level::Info, MODULE@, "  Server: "@ + g.server@),
                    log_effect(Level::Info, MODULE@, "  Server IP: "@ + or_empty(g.server_ip)),
                ],
                _ => seq![
                    log_effect(
                        Level::Warn,
                        MODULE@,
                        MsgTemplate::UnsupportedAction.format_spec(action.name(), ""@, ""@),
                    ),
                ],
            },
    {
        match action {
            Action::Help => one_effect(Effect::info(MODULE, "help")),
            Action::Show => {
                let mut out: Vec<Effect> = Vec::new();
                push_effect(&mut out, Effect::info(MODULE, "show"));
                push_effect(&mut out, Effect::info(MODULE, "  Script: cfg.toml"));
                push_effect(
                    &mut out,
                    Effect::info(MODULE, concat("  Name: ", g.sys_name.as_str()).as_str()),
                );
                push_effect(
                    &mut out,
                    Effect::info(MODULE, concat("  Server: ", g.server.as_str()).as_str()),
                );
                let ip = match &g.server_ip {
                    Some(ip) => ip.as_str(),
                    None => "",
                };
                proof {
                    reveal_strlit("");
                    assert(""@ =~= Seq::<char>::empty());
                }
                push_effect(&mut out, Effect::info(MODULE, concat("  Server IP: ", ip).as_str()));
                assert(effects_view(out@) =~= seq![
                    log_effect(Level::Info, MODULE@, "show"@),
                    log_effect(Level::Info, MODULE@, "  Script: cfg.toml"@),
                    log_effect(Level::Info, MODULE@, "  Name: "@ + g.sys_name@),
                    log_effect(Level::Info, MODULE@, "  Server: "@ + g.server@),
                    log_effect(Level::Info, MODULE@, "  Server IP: "@ + or_empty(g.server_ip)),
                ]);
                out
            },
            _ => one_effect(
                Effect::warn(
                    MODULE,
                    MsgTemplate::UnsupportedAction.format(action.as_ref(), "", "").as_str(),
                ),
            ),
        }
    }
}

} // verus!
