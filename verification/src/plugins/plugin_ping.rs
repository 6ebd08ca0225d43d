//! The ping component: it asks whether a host answers.

use vstd::prelude::*;
use vstd::string::*;
use crate::messages::{log_effect, Action, Effect, EffectView, Level};
use crate::text::{concat, join, join_spec, words_view};
use crate::utils::common::MsgTemplate;

verus! {

/// The name under which this component is addressed.
pub const MODULE: &'static str = "ping";

/// What the caller is to do for the ping component.
#[derive(Debug)]
pub enum Output {
    /// Perform an effect on the bus.
    Bus(Effect),
    /// Find the address of `target` and ping it, then report with
    /// [`resolve_failed`], [`ping_failed`] or [`ping_done`].
    Ping { target: String },
}

/// An [`Output`] as a plain value.
pub enum OutputView {
    Bus(EffectView),
    Ping { target: Seq<char> },
}

impl View for Output {
    type V = OutputView;

    open spec fn view(&self) -> OutputView {
        match *self {
            Output::Bus(e) => OutputView::Bus(e@),
            Output::Ping { target } => OutputView::Ping { target: target@ },
        }
    }
}

/// The views of a sequence of outputs.
pub open spec fn outputs_view(v: Seq<Output>) -> Seq<OutputView> {
    Seq::new(v.len(), |i: int| v[i]@)
}

/// The output that logs `msg` for information.
pub open spec fn info(msg: Seq<char>) -> OutputView {
    OutputView::Bus(log_effect(Level::Info, MODULE@, msg))
}

/// The output that logs `msg` as a warning.
pub open spec fn warning(msg: Seq<char>) -> OutputView {
    OutputView::Bus(log_effect(Level::Warn, MODULE@, msg))
}

/// What the component does with a command. `ping <ip_address>` asks for
/// the host to be pinged.
pub open spec fn step(action: Action, parts: Seq<Seq<char>>) -> Seq<OutputView> {
    match action {
        Action::Help => seq![
            info("help"@),
            info("  ping <ip_address> - Ping the specified IP address."@),
        ],
        Action::Show => seq![info("show"@)],
        Action::Ping => if parts.len() > 3 {
            seq![
                info("ping"@),
                info("Pinging IP: "@ + parts[3]),
                OutputView::Ping { target: parts[3] },
            ]
        } else {
            seq![
                info("ping"@),
                warning(
                    MsgTemplate::MissingParameters.format_spec(
                        "<ip_address>"@,
                        "ping"@,
                        join_spec(parts, " "@),
                    ),
                ),
            ]
        },
        _ => seq![warning(MsgTemplate::UnsupportedAction.format_spec(action.name(), ""@, ""@))],
    }
}

fn push_output(outputs: &mut Vec<Output>, o: Output)
    ensures
        outputs_view(final(outputs)@) == outputs_view(old(outputs)@).push(o@),
{
    outputs.push(o);
    assert(outputs_view(outputs@) =~= outputs_view(old(outputs)@).push(o@));
}

/// The warning for a host whose address could not be found.
pub fn resolve_failed(target: &str, error: &str) -> (out: Effect)
    ensures
        out@ == log_effect(
            Level::Warn,
            MODULE@,
            "Failed to resolve "@ + target@ + ": "@ + error@,
        ),
{
    let mut text = String::from_str("Failed to resolve ");
    text.append(target);
    text.append(": ");
    text.append(error);
    Effect::warn(MODULE, text.as_str())
}

/// The warning for a host that did not answer.
pub fn ping_failed(ip: &str, error: &str) -> (out: Effect)
    ensures
        out@ == log_effect(Level::Warn, MODULE@, "Failed to ping "@ + ip@ + ": "@ + error@),
{
    let mut text = String::from_str("Failed to ping ");
    text.append(ip);
    text.append(": ");
    text.append(error);
    Effect::warn(MODULE, text.as_str())
}

/// The line for a host that answered; `duration` is the time it took, as
/// text.
pub fn ping_done(duration: &str) -> (out: Effect)
    ensures
        out@ == log_effect(Level::Info, MODULE@, "Ping took "@ + duration@),
{
    Effect::info(MODULE, concat("Ping took ", duration).as_str())
}

/// The ping component.
#[derive(Debug)]
pub struct PluginUnit {}

impl PluginUnit {
    /// The component.
    pub fn new() -> PluginUnit {
        PluginUnit {  }
    }

    /// Handles a command (see [`step`]).
    pub fn handle_action(&self, action: Action, cmd_parts: &Vec<String>) -> (out: Vec<Output>)
        ensures
            outputs_view(out@) == step(action, words_view(cmd_parts@)),
    {
        let mut out: Vec<Output> = Vec::new();
        match action {
            Action::Help => {
                push_output(&mut out, Output::Bus(Effect::info(MODULE, "help")));
                push_output(
                    &mut out,
                    Output::Bus(
                        Effect::info(
                            MODULE,
                            "  ping <ip_address> - Ping the specified IP address.",
                        ),
                    ),
                );
            },
            Action::Show => {
                push_output(&mut out, Output::Bus(Effect::info(MODULE, "show")));
            },
            Action::Ping => {
                push_output(&mut out, Output::Bus(Effect::info(MODULE, "ping")));
                if cmd_parts.len() > 3 {
                    let target = cmd_parts[3].as_str();
                    push_output(
                        &mut out,
                        Output::Bus(Effect::info(MODULE, concat("Pinging IP: ", target).as_str())),
                    );
                    push_output(&mut out, Output::Ping { target: String::from_str(target) });
                } else {
                    let line = join(cmd_parts, " ");
                    push_output(
                        &mut out,
                        Output::Bus(
                            Effect::warn(
                                MODULE,
                                MsgTemplate::MissingParameters.format(
                                    "<ip_address>",
                                    "ping",
                                    line.as_str(),
                                ).as_str(),
                            ),
                        ),
                    );
                }
            },
            _ => {
                push_output(
                    &mut out,
                    Output::Bus(
                        Effect::warn(
                            MODULE,
                            MsgTemplate::UnsupportedAction.format(
                                action.as_ref(),
                                "",
                                "",
                            ).as_str(),
                        ),
                    ),
                );
            },
        }
        assert(outputs_view(out@) =~= step(action, words_view(cmd_parts@)));
        out
    }
}

} // verus!
