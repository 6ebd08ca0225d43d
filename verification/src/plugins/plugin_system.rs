//! The system component: it publishes what this instance knows about
//! itself.

use vstd::prelude::*;
use vstd::string::*;
use crate::consts::{NA, VERSION};
use crate::messages::{
    effects_view, log_effect, one_effect, push_effect, Action, DeviceKey, Effect, EffectView,
    Level,
};
use crate::text::{chars_of, concat, contains_chars, contains_spec, decimal, decimal_spec};
use crate::utils::common::{ascii_lower, MsgTemplate};
use crate::utils::time::{uptime_str, uptime_str_spec};

verus! {

/// The name under which this component is addressed.
pub const MODULE: &'static str = "system";

/// Seconds between two reports.
pub const UPDATE_INTERVAL: u64 = 300;

/// What the system knows about itself. `temperature` is the temperature as
/// it is published, where one was measured.
#[derive(Debug)]
pub struct SystemInfo {
    pub ts_start_uptime: u64,
    pub tailscale_ip: Option<String>,
    pub temperature: Option<String>,
}

/// The system component.
#[derive(Debug)]
pub struct PluginUnit {
    pub system_info: SystemInfo,
}

/// The command that publishes the attribute `key` with the value `value`.
pub open spec fn publish_cmd(key: DeviceKey, value: Seq<char>) -> EffectView {
    EffectView::Send {
        origin: MODULE@,
        cmd: "p mqtt publish false "@ + key.name() + " '"@ + value + "'"@,
    }
}

/// The text, or the mark for "not known".
pub open spec fn or_na(s: Option<String>) -> Seq<char> {
    match s {
        Some(s) => s@,
        None => NA@,
    }
}

/// The temperature as it is published: `0.0` where none was measured.
pub open spec fn temperature_mqtt(temperature: Option<String>) -> Seq<char> {
    match temperature {
        Some(t) => t@,
        None => "0.0"@,
    }
}

/// How long the program runs, given the uptime of the machine now and at
/// the start of the program.
pub open spec fn app_uptime(uptime: u64, start: u64) -> nat {
    if uptime >= start {
        (uptime - start) as nat
    } else {
        0
    }
}

/// `s` with its ASCII capitals in lower case.
pub open spec fn lowered(s: Seq<char>) -> Seq<char> {
    Seq::new(s.len(), |i: int| ascii_lower(s[i]))
}

/// Whether a sensor with this label measures the processor: its label
/// holds `cpu` or `acpitz`, in any case.
pub open spec fn is_cpu_label_spec(label: Seq<char>) -> bool {
    contains_spec(lowered(label), "cpu"@) || contains_spec(lowered(label), "acpitz"@)
}

/// Whether a sensor with this label measures the processor.
pub fn is_cpu_label(label: &str) -> (out: bool)
    ensures
        out == is_cpu_label_spec(label@),
{
    let v = chars_of(label);
    let mut low: Vec<char> = Vec::new();
    let mut i: usize = 0;
    while i < v.len()
        invariant
            i <= v.len(),
            low.len() == i,
            forall|k: int| 0 <= k < i ==> low@[k] == ascii_lower(v@[k]),
        decreases v.len() - i,
    {
        let c = v[i];
        let n: u32 = c as u32;
        low.push(
            if 65 <= n && n <= 90 {
                ((n as u8) + 32) as char
            } else {
                c
            },
        );
        i += 1;
    }
    assert(low@ =~= lowered(label@));
    contains_chars(&low, &chars_of("cpu")) || contains_chars(&low, &chars_of("acpitz"))
}

fn publish(key: DeviceKey, value: &str) -> (out: Effect)
    ensures
        out@ == publish_cmd(key, value@),
{
    let mut text = String::from_str("p mqtt publish false ");
    text.append(key.as_ref());
    text.append(" '");
    text.append(value);
    text.append("'");
    Effect::cmd(MODULE, text.as_str())
}

impl PluginUnit {
    /// The component, with what the system knows about itself at the start.
    pub fn new(system_info: SystemInfo) -> (out: PluginUnit)
        ensures
            out.system_info == system_info,
    {
        PluginUnit { system_info }
    }

    /// `show`: address, uptime of the program and temperature. `uptime` is
    /// the uptime of the machine now.
    pub fn handle_action_show(&self, uptime: u64) -> (out: Vec<Effect>)
        ensures
            effects_view(out@) == seq![
                log_effect(Level::Info, MODULE@, "show"@),
                log_effect(
                    Level::Info,
                    MODULE@,
                    "  Tailscale IP: "@ + or_na(self.system_info.tailscale_ip),
                ),
                log_effect(
                    Level::Info,
                    MODULE@,
                    "  App uptime: "@ + uptime_str_spec(
                        app_uptime(uptime, self.system_info.ts_start_uptime),
                    ),
                ),
                log_effect(
                    Level::Info,
                    MODULE@,
                    "  Temperature: "@ + or_na(self.system_info.temperature),
                ),
            ],
    {
        let mut out: Vec<Effect> = Vec::new();
        push_effect(&mut out, Effect::info(MODULE, "show"));
        let ip = match &self.system_info.tailscale_ip {
            Some(ip) => ip.as_str(),
            None => NA,
        };
        push_effect(&mut out, Effect::info(MODULE, concat("  Tailscale IP: ", ip).as_str()));
        let start = self.system_info.ts_start_uptime;
        let up: u64 = if uptime >= start {
            uptime - start
        } else {
            0
        };
        push_effect(
            &mut out,
            Effect::info(MODULE, concat("  App uptime: ", uptime_str(up).as_str()).as_str()),
        );
        let t = match &self.system_info.temperature {
            Some(t) => t.as_str(),
            None => NA,
        };
        push_effect(&mut out, Effect::info(MODULE, concat("  Temperature: ", t).as_str()));
        assert(effects_view(out@) =~= seq![
            log_effect(Level::Info, MODULE@, "show"@),
            log_effect(
                Level::Info,
                MODULE@,
                "  Tailscale IP: "@ + or_na(self.system_info.tailscale_ip),
            ),
            log_effect(
                Level::Info,
                MODULE@,
                "  App uptime: "@ + uptime_str_spec(
                    app_uptime(uptime, self.system_info.ts_start_uptime),
                ),
            ),
            log_effect(
                Level::Info,
                MODULE@,
                "  Temperature: "@ + or_na(self.system_info.temperature),
            ),
        ]);
        out
    }

    /// `update`: takes what was read from the system just now, and publishes
    /// the five attributes of this instance. `uptime` is the uptime of the
    /// machine now.
    pub fn handle_action_update(
        &mut self,
        tailscale_ip: Option<String>,
        temperature: Option<String>,
        uptime: u64,
    ) -> (out: Vec<Effect>)
        ensures
            final(self).system_info.ts_start_uptime == old(self).system_info.ts_start_uptime,
            final(self).system_info.tailscale_ip == tailscale_ip,
            final(self).system_info.temperature == temperature,
            effects_view(out@) == seq![
                publish_cmd(DeviceKey::Onboard, "1"@),
                publish_cmd(DeviceKey::Version, VERSION@),
                publish_cmd(DeviceKey::TailscaleIp, or_na(tailscale_ip)),
                publish_cmd(DeviceKey::Temperature, temperature_mqtt(temperature)),
                publish_cmd(
                    DeviceKey::AppUptime,
                    decimal_spec(app_uptime(uptime, old(self).system_info.ts_start_uptime)),
                ),
            ],
    {
        self.system_info.tailscale_ip = tailscale_ip;
        self.system_info.temperature = temperature;
        let start = self.system_info.ts_start_uptime;
        let up: u64 = if uptime >= start {
            uptime - start
        } else {
            0
        };
        let mut out: Vec<Effect> = Vec::new();
        push_effect(&mut out, publish(DeviceKey::Onboard, "1"));
        push_effect(&mut out, publish(DeviceKey::Version, VERSION));
        let ip = match &self.system_info.tailscale_ip {
            Some(ip) => ip.as_str(),
            None => NA,
        };
        push_effect(&mut out, publish(DeviceKey::TailscaleIp, ip));
        let t = match &self.system_info.temperature {
            Some(t) => t.as_str(),
            None => "0.0",
        };
        push_effect(&mut out, publish(DeviceKey::Temperature, t));
        push_effect(&mut out, publish(DeviceKey::AppUptime, decimal(up).as_str()));
        assert(effects_view(out@) =~= seq![
            publish_cmd(DeviceKey::Onboard, "1"@),
            publish_cmd(DeviceKey::Version, VERSION@),
            publish_cmd(DeviceKey::TailscaleIp, or_na(tailscale_ip)),
            publish_cmd(DeviceKey::Temperature, temperature_mqtt(temperature)),
            publish_cmd(
                DeviceKey::AppUptime,
                decimal_spec(app_uptime(uptime, old(self).system_info.ts_start_uptime)),
            ),
        ]);
        out
    }

    /// `help`: what can be asked of the component.
    pub fn handle_action_help(&self) -> (out: Vec<Effect>)
        ensures
            effects_view(out@) == seq![
                log_effect(Level::Info, MODULE@, "help"@),
                log_effect(Level::Info, MODULE@, "  update"@),
            ],
    {
        let mut out: Vec<Effect> = Vec::new();
        push_effect(&mut out, Effect::info(MODULE, "help"));
        push_effect(&mut out, Effect::info(MODULE, "  update"));
        assert(effects_view(out@) =~= seq![
            log_effect(Level::Info, MODULE@, "help"@),
            log_effect(Level::Info, MODULE@, "  update"@),
        ]);
        out
    }

    /// The warning for an action that the component does not know.
    pub fn unsupported(&self, action: Action) -> (out: Vec<Effect>)
        ensures
            effects_view(out@) == seq![
                log_effect(
                    Level::Warn,
                    MODULE@,
                    MsgTemplate::UnsupportedAction.format_spec(action.name(), ""@, ""@),
                ),
            ],
    {
        one_effect(
            Effect::warn(
                MODULE,
                MsgTemplate::UnsupportedAction.format(action.as_ref(), "", "").as_str(),
            ),
        )
    }
}

} // verus!
