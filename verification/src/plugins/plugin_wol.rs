//! The wake-on-LAN component: it keeps the hardware addresses of machines
//! and wakes them by name.

use vstd::prelude::*;
use vstd::string::*;
use crate::messages::{log_effect, Action, Effect, EffectView, Level};
use crate::plugins::plugins_main::{lemma_position, lemma_position_is, position};
use crate::text::{chars_of, concat3, join, join_spec, words_view};
use crate::utils::common::MsgTemplate;

verus! {

/// The name under which this component is addressed.
pub const MODULE: &'static str = "wol";

/// The parameters of `add`, as warnings quote them.
pub const ADD_PARAMS: &'static str = "<name> <mac_address>";

/// What is wrong with a hardware address that cannot be read.
pub const MAC_FORMAT: &'static str = "expected six bytes in hex, separated by colons";

/// A machine that can be woken.
#[derive(Debug)]
pub struct Wol {
    pub name: String,
    pub mac: [u8; 6],
}

/// The value of a digit in base 16, either case; 16 for any other
/// character.
pub open spec fn hex_value(c: char) -> int {
    let n = c as u32 as int;
    if 48 <= n <= 57 {
        n - 48
    } else if 65 <= n <= 70 {
        n - 55
    } else if 97 <= n <= 102 {
        n - 87
    } else {
        16
    }
}

/// Whether byte `k` of `s` is written in two digits of base 16.
pub open spec fn byte_ok(s: Seq<char>, k: int) -> bool {
    hex_value(s[3 * k]) < 16 && hex_value(s[3 * k + 1]) < 16
}

/// Whether a colon follows byte `k` of `s`.
pub open spec fn colon_ok(s: Seq<char>, k: int) -> bool {
    s[3 * k + 2] == ':'
}

/// Whether `s` writes a hardware address: six bytes, each in two digits of
/// base 16, with colons between them.
pub open spec fn is_mac(s: Seq<char>) -> bool {
    &&& s.len() == 17
    &&& forall|k: int| 0 <= k < 6 ==> byte_ok(s, k)
    &&& forall|k: int| 0 <= k < 5 ==> colon_ok(s, k)
}

/// Byte `k` of the hardware address that `s` writes.
pub open spec fn mac_byte(s: Seq<char>, k: int) -> u8 {
    (16 * hex_value(s[3 * k]) + hex_value(s[3 * k + 1])) as u8
}

/// The hardware address that `s` writes, if it writes one.
pub open spec fn parse_mac_spec(s: Seq<char>) -> Option<Seq<u8>> {
    if is_mac(s) {
        Some(Seq::new(6, |k: int| mac_byte(s, k)))
    } else {
        None
    }
}

/// The digit of a number below 16 in base 16, in capitals.
pub open spec fn hex_upper(n: int) -> char {
    if n < 10 {
        crate::text::digit_char(n)
    } else if n == 10 {
        'A'
    } else if n == 11 {
        'B'
    } else if n == 12 {
        'C'
    } else if n == 13 {
        'D'
    } else if n == 14 {
        'E'
    } else {
        'F'
    }
}

/// A hardware address as it is shown: `AA:BB:CC:DD:EE:FF`.
pub open spec fn mac_text(mac: Seq<u8>) -> Seq<char> {
    Seq::new(
        17,
        |i: int|
            if i % 3 == 2 {
                ':'
            } else if i % 3 == 0 {
                hex_upper(mac[i / 3] as int / 16)
            } else {
                hex_upper(mac[i / 3] as int % 16)
            },
    )
}

fn hex_digit(c: char) -> (out: u8)
    ensures
        out == hex_value(c),
{
    let n: u32 = c as u32;
    if 48 <= n && n <= 57 {
        (n - 48) as u8
    } else if 65 <= n && n <= 70 {
        (n - 55) as u8
    } else if 97 <= n && n <= 102 {
        (n - 87) as u8
    } else {
        16
    }
}

fn upper_digit(n: u8) -> (out: char)
    requires
        n < 16,
    ensures
        out == hex_upper(n as int),
{
    if n == 0 {
        '0'
    } else if n == 1 {
        '1'
    } else if n == 2 {
        '2'
    } else if n == 3 {
        '3'
    } else if n == 4 {
        '4'
    } else if n == 5 {
        '5'
    } else if n == 6 {
        '6'
    } else if n == 7 {
        '7'
    } else if n == 8 {
        '8'
    } else if n == 9 {
        '9'
    } else if n == 10 {
        'A'
    } else if n == 11 {
        'B'
    } else if n == 12 {
        'C'
    } else if n == 13 {
        'D'
    } else if n == 14 {
        'E'
    } else {
        'F'
    }
}

/// Reads a hardware address of the form `AA:BB:CC:DD:EE:FF`.
pub fn parse_mac(s: &str) -> (out: Option<[u8; 6]>)
    ensures
        out is Some == parse_mac_spec(s@) is Some,
        out matches Some(mac) ==> parse_mac_spec(s@) == Some(mac@),
{
    let v = chars_of(s);
    if v.len() != 17 {
        return None;
    }
    let mut bytes: Vec<u8> = Vec::new();
    let mut k: usize = 0;
    while k < 6
        invariant
            k <= 6,
            v.len() == 17,
            v@ == s@,
            bytes.len() == k,
            forall|j: int| 0 <= j < k ==> byte_ok(v@, j),
            forall|j: int| 0 <= j < k && j < 5 ==> colon_ok(v@, j),
            forall|j: int| 0 <= j < k ==> bytes@[j] == mac_byte(v@, j),
        decreases 6 - k,
    {
        let hi = hex_digit(v[3 * k]);
        let lo = hex_digit(v[3 * k + 1]);
        if hi >= 16 || lo >= 16 {
            proof {
                assert(!byte_ok(s@, k as int));
            }
            return None;
        }
        if k < 5 && v[3 * k + 2] != ':' {
            proof {
                assert(!colon_ok(s@, k as int));
            }
            return None;
        }
        bytes.push(16 * hi + lo);
        k += 1;
    }
    let mac: [u8; 6] = [bytes[0], bytes[1], bytes[2], bytes[3], bytes[4], bytes[5]];
    proof {
        assert(is_mac(s@));
        assert(mac@ =~= Seq::new(6, |j: int| mac_byte(s@, j)));
    }
    Some(mac)
}

/// Writes a hardware address as `AA:BB:CC:DD:EE:FF`.
pub fn format_mac(mac: &[u8; 6]) -> (out: String)
    ensures
        out@ == mac_text(mac@),
{
    let mut out = String::new();
    let mut k: usize = 0;
    while k < 6
        invariant
            k <= 6,
            out@.len() == (if k == 0 {
                0
            } else {
                3 * k - 1
            }),
            forall|i: int| 0 <= i < out@.len() ==> out@[i] == mac_text(mac@)[i],
        decreases 6 - k,
    {
        if k > 0 {
            out.push(':');
        }
        let b: u8 = mac[k];
        out.push(upper_digit(b / 16));
        out.push(upper_digit(b % 16));
        k += 1;
    }
    assert(out@ =~= mac_text(mac@));
    out
}

/// What the caller is to do for the component.
#[derive(Debug)]
pub enum Output {
    /// Perform an effect on the bus.
    Bus(Effect),
    /// Send the packet that wakes the machine `name` with the hardware
    /// address `mac`, then report with [`PluginUnit::woken`].
    Wake { name: String, mac: [u8; 6] },
}

/// An [`Output`] as a plain value.
pub enum OutputView {
    Bus(EffectView),
    Wake { name: Seq<char>, mac: Seq<u8> },
}

impl View for Output {
    type V = OutputView;

    open spec fn view(&self) -> OutputView {
        match *self {
            Output::Bus(e) => OutputView::Bus(e@),
            Output::Wake { name, mac } => OutputView::Wake { name: name@, mac: mac@ },
        }
    }
}

/// The views of a sequence of outputs.
pub open spec fn outputs_view(v: Seq<Output>) -> Seq<OutputView> {
    Seq::new(v.len(), |i: int| v[i]@)
}

/// A machine as a plain value.
pub struct WolView {
    pub name: Seq<char>,
    pub mac: Seq<u8>,
}

/// The component.
#[derive(Debug)]
pub struct PluginUnit {
    wol: Vec<Wol>,
}

/// A state of the component together with what the caller is to do.
pub struct Outcome {
    pub state: Seq<WolView>,
    pub outputs: Seq<OutputView>,
}

/// The output that logs `msg` for information.
pub open spec fn info(msg: Seq<char>) -> OutputView {
    OutputView::Bus(log_effect(Level::Info, MODULE@, msg))
}

/// The output that logs `msg` as a warning.
pub open spec fn warning(msg: Seq<char>) -> OutputView {
    OutputView::Bus(log_effect(Level::Warn, MODULE@, msg))
}

/// The names of the machines.
pub open spec fn names(wol: Seq<WolView>) -> Seq<Seq<char>> {
    Seq::new(wol.len(), |i: int| wol[i].name)
}

/// `show`: the machines and their addresses.
pub open spec fn show_spec(wol: Seq<WolView>) -> Seq<OutputView> {
    if wol.len() == 0 {
        seq![info("show"@), info("  No devices configured."@)]
    } else {
        seq![info("show"@)] + Seq::new(
            wol.len(),
            |i: int| info("  "@ + wol[i].name + ": "@ + mac_text(wol[i].mac)),
        )
    }
}

/// `add <name> <mac_address>`: adds a machine, unless its name is taken or
/// its address cannot be read.
pub open spec fn add_spec(wol: Seq<WolView>, parts: Seq<Seq<char>>) -> Outcome {
    if parts.len() < 5 {
        Outcome {
            state: wol,
            outputs: seq![
                info("add"@),
                warning(
                    MsgTemplate::MissingParameters.format_spec(
                        ADD_PARAMS@,
                        "add"@,
                        join_spec(parts, " "@),
                    ),
                ),
            ],
        }
    } else {
        let head = seq![
            info("add"@),
            info("  Adding device `"@ + parts[3] + "` with MAC `"@ + parts[4] + "`"@),
        ];
        match parse_mac_spec(parts[4]) {
            None => Outcome {
                state: wol,
                outputs: head.push(
                    warning("Invalid MAC address `"@ + parts[4] + "`: "@ + MAC_FORMAT@),
                ),
            },
            Some(mac) => if position(names(wol), parts[3]) is Some {
                Outcome {
                    state: wol,
                    outputs: head.push(warning("Device `"@ + parts[3] + "` already exists."@)),
                }
            } else {
                Outcome {
                    state: wol.push(WolView { name: parts[3], mac }),
                    outputs: head.push(info("Device `"@ + parts[3] + "` added."@)),
                }
            },
        }
    }
}

/// `wake <name>`: asks for the machine to be woken, where it is known.
pub open spec fn wake_spec(wol: Seq<WolView>, parts: Seq<Seq<char>>) -> Seq<OutputView> {
    if parts.len() <= 3 {
        seq![
            info("wake"@),
            warning(
                MsgTemplate::MissingParameters.format_spec(
                    "<name>"@,
                    "wake"@,
                    join_spec(parts, " "@),
                ),
            ),
        ]
    } else {
        let head = seq![info("wake"@), info("  Waking device `"@ + parts[3] + "`"@)];
        match position(names(wol), parts[3]) {
            Some(i) => head.push(OutputView::Wake { name: parts[3], mac: wol[i as int].mac }),
            None => head.push(warning("Device `"@ + parts[3] + "` not found."@)),
        }
    }
}

/// What the component does with a command.
pub open spec fn step(wol: Seq<WolView>, action: Action, parts: Seq<Seq<char>>) -> Outcome {
    match action {
        Action::Help => Outcome {
            state: wol,
            outputs: seq![
                info("help"@),
                info("  add <name> <mac_address>   Add a new device"@),
                info("  wake <name>       Wake a device by name"@),
            ],
        },
        Action::Show => Outcome { state: wol, outputs: show_spec(wol) },
        Action::Add => add_spec(wol, parts),
        Action::Wake => Outcome { state: wol, outputs: wake_spec(wol, parts) },
        _ => Outcome {
            state: wol,
            outputs: seq![
                warning(MsgTemplate::UnsupportedAction.format_spec(action.name(), ""@, ""@)),
            ],
        },
    }
}

impl View for PluginUnit {
    type V = Seq<WolView>;

    closed spec fn view(&self) -> Seq<WolView> {
        Seq::new(
            self.wol@.len(),
            |i: int| WolView { name: self.wol@[i].name@, mac: self.wol@[i].mac@ },
        )
    }
}

fn push_output(outputs: &mut Vec<Output>, o: Output)
    ensures
        outputs_view(final(outputs)@) == outputs_view(old(outputs)@).push(o@),
{
    outputs.push(o);
    assert(outputs_view(outputs@) =~= outputs_view(old(outputs)@).push(o@));
}

fn info_output(msg: &str) -> (out: Output)
    ensures
        out@ == info(msg@),
{
    Output::Bus(Effect::info(MODULE, msg))
}

fn warn_output(msg: &str) -> (out: Output)
    ensures
        out@ == warning(msg@),
{
    Output::Bus(Effect::warn(MODULE, msg))
}

impl PluginUnit {
    /// The component, which knows no machine yet.
    pub fn new() -> (out: PluginUnit)
        ensures
            out@ == Seq::<WolView>::empty(),
    {
        let out = PluginUnit { wol: Vec::new() };
        assert(out@ =~= Seq::<WolView>::empty());
        out
    }

    /// The machines, in the order in which they were added.
    pub fn machines(&self) -> (out: &Vec<Wol>)
        ensures
            out@.len() == self@.len(),
            forall|i: int|
                0 <= i < out@.len() ==> (#[trigger] out@[i]).name@ == self@[i].name && out@[i].mac@
                    == self@[i].mac,
    {
        &self.wol
    }

    fn find(&self, name: &str) -> (out: Option<usize>)
        ensures
            out matches Some(i) ==> i < self.wol.len() && position(names(self@), name@) == Some(
                i as nat,
            ),
            out is None ==> position(names(self@), name@) is None,
    {
        let ghost all = names(self@);
        let mut i: usize = 0;
        while i < self.wol.len()
            invariant
                i <= self.wol.len(),
                all == names(self@),
                all.len() == self.wol.len(),
                forall|j: int| 0 <= j < i ==> all[j] != name@,
            decreases self.wol.len() - i,
        {
            proof {
                assert(all[i as int] == self.wol@[i as int].name@);
            }
            if self.wol[i].name.as_str().eq(name) {
                proof {
                    lemma_position_is(all, name@, i as int);
                }
                return Some(i);
            }
            i += 1;
        }
        proof {
            lemma_position(all, name@);
        }
        None
    }

    fn handle_action_show(&self) -> (out: Vec<Output>)
        ensures
            outputs_view(out@) == show_spec(self@),
    {
        let mut out: Vec<Output> = Vec::new();
        push_output(&mut out, info_output("show"));
        if self.wol.len() == 0 {
            push_output(&mut out, info_output("  No devices configured."));
            assert(outputs_view(out@) =~= show_spec(self@));
            return out;
        }
        let ghost head = outputs_view(out@);
        let mut i: usize = 0;
        assert(outputs_view(out@) =~= head + Seq::new(
            0,
            |k: int| info("  "@ + self@[k].name + ": "@ + mac_text(self@[k].mac)),
        ));
        while i < self.wol.len()
            invariant
                i <= self.wol.len(),
                outputs_view(out@) == head + Seq::new(
                    i as nat,
                    |k: int| info("  "@ + self@[k].name + ": "@ + mac_text(self@[k].mac)),
                ),
            decreases self.wol.len() - i,
        {
            let d = &self.wol[i];
            let mut text = String::from_str("  ");
            text.append(d.name.as_str());
            text.append(": ");
            text.append(format_mac(&d.mac).as_str());
            push_output(&mut out, info_output(text.as_str()));
            proof {
                assert(self@[i as int].name == d.name@ && self@[i as int].mac == d.mac@);
                assert(outputs_view(out@) =~= head + Seq::new(
                    (i + 1) as nat,
                    |k: int| info("  "@ + self@[k].name + ": "@ + mac_text(self@[k].mac)),
                ));
            }
            i += 1;
        }
        assert(outputs_view(out@) =~= show_spec(self@));
        out
    }

    fn handle_action_add(&mut self, cmd_parts: &Vec<String>) -> (out: Vec<Output>)
        ensures
            final(self)@ == add_spec(old(self)@, words_view(cmd_parts@)).state,
            outputs_view(out@) == add_spec(old(self)@, words_view(cmd_parts@)).outputs,
    {
        let ghost spec = add_spec(self@, words_view(cmd_parts@));
        let mut out: Vec<Output> = Vec::new();
        push_output(&mut out, info_output("add"));
        if cmd_parts.len() < 5 {
            let line = join(cmd_parts, " ");
            push_output(
                &mut out,
                warn_output(
                    MsgTemplate::MissingParameters.format(ADD_PARAMS, "add", line.as_str()).as_str(),
                ),
            );
            assert(outputs_view(out@) =~= spec.outputs);
            return out;
        }
        let name = cmd_parts[3].as_str();
        let mac_str = cmd_parts[4].as_str();
        let mut text = String::from_str("  Adding device `");
        text.append(name);
        text.append("` with MAC `");
        text.append(mac_str);
        text.append("`");
        push_output(&mut out, info_output(text.as_str()));
        match parse_mac(mac_str) {
            None => {
                let mut text = String::from_str("Invalid MAC address `");
                text.append(mac_str);
                text.append("`: ");
                text.append(MAC_FORMAT);
                push_output(&mut out, warn_output(text.as_str()));
            },
            Some(mac) => {
                if self.find(name).is_some() {
                    push_output(
                        &mut out,
                        warn_output(concat3("Device `", name, "` already exists.").as_str()),
                    );
                } else {
                    self.wol.push(Wol { name: String::from_str(name), mac });
                    assert(self@ =~= old(self)@.push(WolView { name: name@, mac: mac@ }));
                    push_output(
                        &mut out,
                        info_output(concat3("Device `", name, "` added.").as_str()),
                    );
                }
            },
        }
        assert(outputs_view(out@) =~= spec.outputs);
        out
    }

    fn handle_action_wake(&self, cmd_parts: &Vec<String>) -> (out: Vec<Output>)
        ensures
            outputs_view(out@) == wake_spec(self@, words_view(cmd_parts@)),
    {
        let mut out: Vec<Output> = Vec::new();
        push_output(&mut out, info_output("wake"));
        if cmd_parts.len() <= 3 {
            let line = join(cmd_parts, " ");
            push_output(
                &mut out,
                warn_output(
                    MsgTemplate::MissingParameters.format("<name>", "wake", line.as_str()).as_str(),
                ),
            );
            assert(outputs_view(out@) =~= wake_spec(self@, words_view(cmd_parts@)));
            return out;
        }
        let name = cmd_parts[3].as_str();
        push_output(&mut out, info_output(concat3("  Waking device `", name, "`").as_str()));
        match self.find(name) {
            Some(i) => {
                proof {
                    assert(self@[i as int].mac == self.wol@[i as int].mac@);
                }
                push_output(
                    &mut out,
                    Output::Wake { name: String::from_str(name), mac: self.wol[i].mac },
                );
            },
            None => {
                push_output(
                    &mut out,
                    warn_output(concat3("Device `", name, "` not found.").as_str()),
                );
            },
        }
        assert(outputs_view(out@) =~= wake_spec(self@, words_view(cmd_parts@)));
        out
    }

    /// After the packet for the machine `name` was sent, or could not be:
    /// what to log. `error` is `None` on success.
    pub fn woken(&self, name: &str, error: &Option<String>) -> (out: Effect)
        ensures
            out@ == (match *error {
                None => log_effect(
                    Level::Info,
                    MODULE@,
                    "Device `"@ + name@ + "` woken up successfully."@,
                ),
                Some(e) => log_effect(
                    Level::Warn,
                    MODULE@,
                    "Failed to wake device `"@ + name@ + "`: "@ + e@,
                ),
            }),
    {
        match error {
            None => Effect::info(
                MODULE,
                concat3("Device `", name, "` woken up successfully.").as_str(),
            ),
            Some(e) => {
                let mut text = String::from_str("Failed to wake device `");
                text.append(name);
                text.append("`: ");
                text.append(e.as_str());
                Effect::warn(MODULE, text.as_str())
            },
        }
    }

    /// Handles a command (see [`step`]).
    pub fn handle_action(&mut self, action: Action, cmd_parts: &Vec<String>) -> (out: Vec<Output>)
        ensures
            final(self)@ == step(old(self)@, action, words_view(cmd_parts@)).state,
            outputs_view(out@) == step(old(self)@, action, words_view(cmd_parts@)).outputs,
    {
        match action {
            Action::Help => {
                let mut out: Vec<Output> = Vec::new();
                push_output(&mut out, info_output("help"));
                push_output(&mut out, info_output("  add <name> <mac_address>   Add a new device"));
                push_output(&mut out, info_output("  wake <name>       Wake a device by name"));
                assert(outputs_view(out@) =~= step(
                    old(self)@,
                    action,
                    words_view(cmd_parts@),
                ).outputs);
                out
            },
            Action::Show => self.handle_action_show(),
            Action::Add => self.handle_action_add(cmd_parts),
            Action::Wake => self.handle_action_wake(cmd_parts),
            _ => {
                let mut out: Vec<Output> = Vec::new();
                push_output(
                    &mut out,
                    warn_output(
                        MsgTemplate::UnsupportedAction.format(action.as_ref(), "", "").as_str(),
                    ),
                );
                assert(outputs_view(out@) =~= step(
                    old(self)@,
                    action,
                    words_view(cmd_parts@),
                ).outputs);
                out
            },
        }
    }
}

} // verus!
