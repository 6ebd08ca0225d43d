//! The input line of the terminal interface: what is typed, what was typed
//! before, and which keys are passed on.

use vstd::prelude::*;
use vstd::string::*;
use crate::messages::{
    effects_view, log_effect, no_effect, one_effect, push_effect, Action, Effect, EffectView, Key,
    Level,
};
use crate::text::{chars_of, concat, concat3, join, join_spec, string_of, words_view};
use crate::utils::common::MsgTemplate;

verus! {

/// The name under which this component is addressed.
pub const MODULE: &'static str = "gui";

/// What stands before the input.
pub const PROMPT: &'static str = "> ";

/// The panel that shows the input line.
pub const OUTPUT_PANEL: &'static str = "command";

/// A key of the keyboard, as far as the input line tells keys apart.
#[derive(Clone, Copy, Debug, PartialEq, Eq, Structural)]
pub enum KeyCode {
    Char(char),
    Backspace,
    Enter,
    Tab,
    Up,
    Down,
    Left,
    Right,
    Other,
}

/// The modifier keys that were held.
#[derive(Clone, Copy, Debug, PartialEq, Eq, Structural)]
pub enum Modifiers {
    /// None, or none that matters here.
    Plain,
    /// Alt alone.
    Alt,
    /// Control alone.
    Control,
}

/// The input line and its history.
#[derive(Debug)]
pub struct PluginUnit {
    output: String,
    history: Vec<String>,
    history_index: usize,
}

/// A [`PluginUnit`] as a plain value.
pub struct UnitView {
    pub output: Seq<char>,
    pub history: Seq<Seq<char>>,
    pub history_index: nat,
}

/// A state of the input line together with the effects of reaching it.
pub struct Outcome {
    pub state: UnitView,
    pub effects: Seq<EffectView>,
}

/// The effect that shows `text` in the panel of the input line.
pub open spec fn output_update(text: Seq<char>) -> EffectView {
    EffectView::Send { origin: MODULE@, cmd: "p command output_update '"@ + text + "'"@ }
}

/// The effect that hands the key `key` to the registry.
pub open spec fn key_effect(key: Key) -> EffectView {
    EffectView::Send { origin: MODULE@, cmd: "p plugins key "@ + key.name() }
}

/// The key that a key of the keyboard stands for while Alt is held.
pub open spec fn alt_key(code: KeyCode) -> Option<Key> {
    match code {
        KeyCode::Char(c) => if c == 'c' {
            Some(Key::AltC)
        } else if c == 'w' {
            Some(Key::AltW)
        } else if c == 's' {
            Some(Key::AltS)
        } else if c == 'a' {
            Some(Key::AltA)
        } else if c == 'd' {
            Some(Key::AltD)
        } else {
            None
        },
        KeyCode::Up => Some(Key::AltUp),
        KeyCode::Down => Some(Key::AltDown),
        KeyCode::Left => Some(Key::AltLeft),
        KeyCode::Right => Some(Key::AltRight),
        _ => None,
    }
}

/// The key that a key of the keyboard stands for while Control is held.
pub open spec fn control_key(code: KeyCode) -> Option<Key> {
    match code {
        KeyCode::Char(c) => if c == 'x' {
            Some(Key::ControlX)
        } else if c == 's' {
            Some(Key::ControlS)
        } else {
            None
        },
        _ => None,
    }
}

/// The key that a key of the keyboard stands for without a modifier, where
/// it is passed on and not typed.
pub open spec fn plain_key(code: KeyCode) -> Option<Key> {
    match code {
        KeyCode::Tab => Some(Key::Tab),
        KeyCode::Up => Some(Key::Up),
        KeyCode::Down => Some(Key::Down),
        KeyCode::Left => Some(Key::Left),
        KeyCode::Right => Some(Key::Right),
        _ => None,
    }
}

impl UnitView {
    /// The input line when the component starts: empty, with no history.
    pub open spec fn start() -> UnitView {
        UnitView { output: Seq::empty(), history: Seq::empty(), history_index: 0 }
    }

    /// The place in the history is in the history or just behind it.
    pub open spec fn wf(self) -> bool {
        self.history_index <= self.history.len()
    }

    /// This state with the given effects.
    pub open spec fn unchanged(self, effects: Seq<EffectView>) -> Outcome {
        Outcome { state: self, effects }
    }

    /// This state, shown anew.
    pub open spec fn shown(self) -> Outcome {
        Outcome { state: self, effects: seq![output_update(PROMPT@ + self.output)] }
    }

    /// A character is typed: it is appended to the input.
    pub open spec fn typed(self, c: char) -> Outcome {
        (UnitView { output: self.output.push(c), ..self }).shown()
    }

    /// Backspace: the last character of the input goes.
    pub open spec fn backspace(self) -> Outcome {
        if self.output.len() > 0 {
            (UnitView { output: self.output.drop_last(), ..self }).shown()
        } else {
            self.shown()
        }
    }

    /// Enter: the input is sent as a command, and the input line is empty
    /// again. The input is appended to the history unless it is empty or
    /// the same as the last entry.
    pub open spec fn enter(self) -> Outcome {
        let kept = self.output.len() > 0 && (self.history.len() == 0 || self.history.last()
            != self.output);
        let history = if kept {
            self.history.push(self.output)
        } else {
            self.history
        };
        Outcome {
            state: UnitView {
                output: Seq::empty(),
                history,
                history_index: if kept {
                    history.len()
                } else {
                    self.history_index
                },
            },
            effects: seq![
                EffectView::Send { origin: MODULE@, cmd: self.output },
                output_update(PROMPT@),
            ],
        }
    }

    /// Up: the entry of the history before the current one becomes the
    /// input, where there is one.
    pub open spec fn up(self) -> Outcome {
        if self.history_index > 0 && self.history_index <= self.history.len() {
            (UnitView {
                output: self.history[self.history_index as int - 1],
                history_index: (self.history_index - 1) as nat,
                ..self
            }).shown()
        } else {
            self.shown()
        }
    }

    /// Down: the entry of the history after the current one becomes the
    /// input; behind the last entry the input is empty.
    pub open spec fn down(self) -> Outcome {
        if self.history_index < self.history.len() {
            (UnitView {
                output: if self.history_index + 1 < self.history.len() {
                    self.history[self.history_index as int + 1]
                } else {
                    Seq::empty()
                },
                history_index: self.history_index + 1,
                ..self
            }).shown()
        } else {
            self.shown()
        }
    }

    /// What a key of the keyboard does. With Alt or Control held it stands
    /// for a key that is passed on to the registry, or for nothing. Without,
    /// characters, backspace and enter edit the input line, and tab and the
    /// arrows are passed on.
    pub open spec fn key_event(self, modifiers: Modifiers, code: KeyCode) -> Outcome {
        match modifiers {
            Modifiers::Alt => match alt_key(code) {
                Some(key) => self.unchanged(seq![key_effect(key)]),
                None => self.unchanged(Seq::empty()),
            },
            Modifiers::Control => match control_key(code) {
                Some(key) => self.unchanged(seq![key_effect(key)]),
                None => self.unchanged(Seq::empty()),
            },
            Modifiers::Plain => match code {
                KeyCode::Char(c) => self.typed(c),
                KeyCode::Backspace => self.backspace(),
                KeyCode::Enter => self.enter(),
                _ => match plain_key(code) {
                    Some(key) => self.unchanged(seq![key_effect(key)]),
                    None => self.unchanged(Seq::empty()),
                },
            },
        }
    }

    /// `key <code>`: up and down walk through the history.
    pub open spec fn handle_key(self, parts: Seq<Seq<char>>) -> Outcome {
        if parts.len() <= 3 {
            self.unchanged(
                seq![
                    log_effect(
                        Level::Warn,
                        MODULE@,
                        MsgTemplate::MissingParameters.format_spec(
                            "<key>"@,
                            "key"@,
                            join_spec(parts, " "@),
                        ),
                    ),
                ],
            )
        } else {
            match Key::named(parts[3]) {
                Some(Key::Up) => self.up(),
                Some(Key::Down) => self.down(),
                Some(_) => self.unchanged(Seq::empty()),
                None => self.unchanged(
                    seq![
                        log_effect(
                            Level::Warn,
                            MODULE@,
                            MsgTemplate::InvalidParameters.format_spec(
                                "<key>"@,
                                "key"@,
                                join_spec(parts, " "@),
                            ),
                        ),
                    ],
                ),
            }
        }
    }

    /// What the component does with a command.
    pub open spec fn step(self, action: Action, parts: Seq<Seq<char>>) -> Outcome {
        match action {
            Action::Help => self.unchanged(seq![log_effect(Level::Info, MODULE@, "help"@)]),
            Action::Show => self.unchanged(seq![log_effect(Level::Info, MODULE@, "show"@)]),
            Action::Key => self.handle_key(parts),
            _ => self.unchanged(
                seq![
                    log_effect(
                        Level::Warn,
                        MODULE@,
                        MsgTemplate::UnsupportedAction.format_spec(action.name(), ""@, ""@),
                    ),
                ],
            ),
        }
    }
}

impl View for PluginUnit {
    type V = UnitView;

    closed spec fn view(&self) -> UnitView {
        UnitView {
            output: self.output@,
            history: words_view(self.history@),
            history_index: self.history_index as nat,
        }
    }
}

fn key_cmd(key: Key) -> (out: Effect)
    ensures
        out@ == key_effect(key),
{
    Effect::cmd(MODULE, concat("p plugins key ", key.as_ref()).as_str())
}

impl PluginUnit {
    /// Whether the input line is in order (see [`UnitView::wf`]).
    pub open spec fn wf(&self) -> bool {
        self@.wf()
    }

    /// The input line when the component starts.
    pub fn new() -> (out: PluginUnit)
        ensures
            out@ == UnitView::start(),
            out.wf(),
    {
        let out = PluginUnit { output: String::new(), history: Vec::new(), history_index: 0 };
        assert(out@.history =~= Seq::empty());
        out
    }

    /// What is typed so far.
    pub fn output(&self) -> (out: &str)
        ensures
            out@ == self@.output,
    {
        self.output.as_str()
    }

    /// What was entered before, oldest first.
    pub fn history(&self) -> (out: &Vec<String>)
        ensures
            words_view(out@) == self@.history,
    {
        &self.history
    }

    /// The effect that shows the empty input line when the component starts.
    pub fn init(&self) -> (out: Effect)
        ensures
            out@ == output_update(PROMPT@),
    {
        Effect::cmd(MODULE, concat3("p command output_update '", PROMPT, "'").as_str())
    }

    fn show(&self) -> (out: Vec<Effect>)
        ensures
            effects_view(out@) == self@.shown().effects,
    {
        let mut text = String::from_str("p command output_update '");
        text.append(PROMPT);
        text.append(self.output.as_str());
        text.append("'");
        proof {
            assert(text@ =~= "p command output_update '"@ + (PROMPT@ + self.output@) + "'"@);
        }
        one_effect(Effect::cmd(MODULE, text.as_str()))
    }

    fn handle_keycode_char(&mut self, key: char) -> (out: Vec<Effect>)
        ensures
            final(self)@ == old(self)@.typed(key).state,
            effects_view(out@) == old(self)@.typed(key).effects,
    {
        self.output.push(key);
        self.show()
    }

    fn handle_keycode_backspace(&mut self) -> (out: Vec<Effect>)
        ensures
            final(self)@ == old(self)@.backspace().state,
            effects_view(out@) == old(self)@.backspace().effects,
    {
        let v = chars_of(self.output.as_str());
        if v.len() > 0 {
            self.output = string_of(&v, 0, v.len() - 1);
            assert(self.output@ =~= old(self).output@.drop_last());
        }
        self.show()
    }

    fn handle_keycode_enter(&mut self) -> (out: Vec<Effect>)
        requires
            old(self).wf(),
        ensures
            final(self).wf(),
            final(self)@ == old(self)@.enter().state,
            effects_view(out@) == old(self)@.enter().effects,
    {
        let typed = self.output.clone();
        let fresh = self.history.len() == 0 || !self.history[self.history.len()
            - 1].as_str().eq(typed.as_str());
        proof {
            if self.history.len() > 0 {
                assert(words_view(self.history@).last() == self.history@[self.history.len()
                    - 1]@);
            }
        }
        if fresh && typed.as_str().unicode_len() > 0 {
            self.history.push(typed.clone());
            self.history_index = self.history.len();
            assert(words_view(self.history@) =~= old(self)@.history.push(typed@));
        }
        let mut out: Vec<Effect> = Vec::new();
        push_effect(&mut out, Effect::cmd(MODULE, typed.as_str()));
        self.output = String::new();
        push_effect(&mut out, self.init());
        assert(effects_view(out@) =~= old(self)@.enter().effects);
        out
    }

    fn handle_action_key_up(&mut self) -> (out: Vec<Effect>)
        requires
            old(self).wf(),
        ensures
            final(self).wf(),
            final(self)@ == old(self)@.up().state,
            effects_view(out@) == old(self)@.up().effects,
    {
        if self.history_index > 0 {
            self.history_index -= 1;
            self.output = self.history[self.history_index].clone();
        }
        self.show()
    }

    fn handle_action_key_down(&mut self) -> (out: Vec<Effect>)
        requires
            old(self).wf(),
        ensures
            final(self).wf(),
            final(self)@ == old(self)@.down().state,
            effects_view(out@) == old(self)@.down().effects,
    {
        if self.history_index < self.history.len() {
            self.history_index += 1;
            if self.history_index < self.history.len() {
                self.output = self.history[self.history_index].clone();
            } else {
                self.output = String::new();
            }
        }
        self.show()
    }

    /// Handles a key of the keyboard (see [`UnitView::key_event`]).
    pub fn handle_keycode(&mut self, modifiers: Modifiers, code: KeyCode) -> (out: Vec<Effect>)
        requires
            old(self).wf(),
        ensures
            final(self).wf(),
            final(self)@ == old(self)@.key_event(modifiers, code).state,
            effects_view(out@) == old(self)@.key_event(modifiers, code).effects,
    {
        let passed: Option<Key> = match modifiers {
            Modifiers::Alt => match code {
                KeyCode::Char(c) => if c == 'c' {
                    Some(Key::AltC)
                } else if c == 'w' {
                    Some(Key::AltW)
                } else if c == 's' {
                    Some(Key::AltS)
                } else if c == 'a' {
                    Some(Key::AltA)
                } else if c == 'd' {
                    Some(Key::AltD)
                } else {
                    None
                },
                KeyCode::Up => Some(Key::AltUp),
                KeyCode::Down => Some(Key::AltDown),
                KeyCode::Left => Some(Key::AltLeft),
                KeyCode::Right => Some(Key::AltRight),
                _ => None,
            },
            Modifiers::Control => match code {
                KeyCode::Char(c) => if c == 'x' {
                    Some(Key::ControlX)
                } else if c == 's' {
                    Some(Key::ControlS)
                } else {
                    None
                },
                _ => None,
            },
            Modifiers::Plain => match code {
                KeyCode::Char(c) => {
                    return self.handle_keycode_char(c);
                },
                KeyCode::Backspace => {
                    return self.handle_keycode_backspace();
                },
                KeyCode::Enter => {
                    return self.handle_keycode_enter();
                },
                KeyCode::Tab => Some(Key::Tab),
                KeyCode::Up => Some(Key::Up),
                KeyCode::Down => Some(Key::Down),
                KeyCode::Left => Some(Key::Left),
                KeyCode::Right => Some(Key::Right),
                KeyCode::Other => None,
            },
        };
        match passed {
            Some(key) => one_effect(key_cmd(key)),
            None => no_effect(),
        }
    }

    /// Handles a command (see [`UnitView::step`]).
    pub fn handle_action(&mut self, action: Action, cmd_parts: &Vec<String>) -> (out: Vec<Effect>)
        requires
            old(self).wf(),
        ensures
            final(self).wf(),
            final(self)@ == old(self)@.step(action, words_view(cmd_parts@)).state,
            effects_view(out@) == old(self)@.step(action, words_view(cmd_parts@)).effects,
    {
        match action {
            Action::Help => one_effect(Effect::info(MODULE, "help")),
            Action::Show => one_effect(Effect::info(MODULE, "show")),
            Action::Key => {
                if cmd_parts.len() <= 3 {
                    let line = join(cmd_parts, " ");
                    return one_effect(
                        Effect::warn(
                            MODULE,
                            MsgTemplate::MissingParameters.format(
                                "<key>",
                                "key",
                                line.as_str(),
                            ).as_str(),
                        ),
                    );
                }
                match Key::parse(cmd_parts[3].as_str()) {
                    Some(Key::Up) => self.handle_action_key_up(),
                    Some(Key::Down) => self.handle_action_key_down(),
                    Some(_) => no_effect(),
                    None => {
                        let line = join(cmd_parts, " ");
                        one_effect(
                            Effect::warn(
                                MODULE,
                                MsgTemplate::InvalidParameters.format(
                                    "<key>",
                                    "key",
                                    line.as_str(),
                                ).as_str(),
                            ),
                        )
                    },
                }
            },
            _ => one_effect(
                Effect::warn(
                    MODULE,
                    MsgTemplate::UnsupportedAction.format(action.as_ref(), "", "").as_str(),
                ),
            ),
        }
    }
}

} // verus!
