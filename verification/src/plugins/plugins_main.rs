//! The component registry: it routes commands to components, handles the
//! commands addressed to itself, and keeps the panels in order.

use vstd::prelude::*;
use vstd::string::*;
use crate::arguments::Mode;
use crate::consts::{COMMAND, COMMAND_ROWS};
use crate::messages::{
    effects_view, is_warning, log_effect, push_effect, Action, Effect, EffectView, Key, Level,
    Msg,
};
use crate::text::{
    concat, concat3, join, join_spec, parse_unsigned, parse_unsigned_spec, words_view,
};
use crate::utils::common::{
    self, action_or_warning, shell_split, split_words, MsgTemplate, USAGE,
};
use crate::utils::panel::{
    add_sat, caculate_position, caculate_position_spec, lemma_percent_of_bounded, panel_rect,
    panel_rect_spec, round_percent, sub_sat, usable_height, PanelInfo, PanelType, Rect,
};

verus! {

/// The name under which the registry itself is addressed.
pub const MODULE: &'static str = "plugins";

/// The components that can be inserted, by name.
#[derive(Clone, Copy, Debug, PartialEq, Eq, Structural)]
pub enum PluginKind {
    Log,
    Cfg,
    System,
    Cli,
    Web,
    Music,
    Gui,
    Mqtt,
    Devices,
    Infos,
    Script,
    Weather,
    Editor,
    Command,
    Wol,
    Ping,
}

impl PluginKind {
    /// The word that writes this component in command text.
    pub open spec fn name(self) -> Seq<char> {
        match self {
            PluginKind::Log => "log"@,
            PluginKind::Cfg => "cfg"@,
            PluginKind::System => "system"@,
            PluginKind::Cli => "cli"@,
            PluginKind::Web => "web"@,
            PluginKind::Music => "music"@,
            PluginKind::Gui => "gui"@,
            PluginKind::Mqtt => "mqtt"@,
            PluginKind::Devices => "devices"@,
            PluginKind::Infos => "infos"@,
            PluginKind::Script => "script"@,
            PluginKind::Weather => "weather"@,
            PluginKind::Editor => "editor"@,
            PluginKind::Command => "command"@,
            PluginKind::Wol => "wol"@,
            PluginKind::Ping => "ping"@,
        }
    }

    /// The component that the word `s` writes, if any. The match is exact: case counts.
    pub open spec fn named(s: Seq<char>) -> Option<PluginKind> {
        if s == "log"@ {
            Some(PluginKind::Log)
        } else if s == "cfg"@ {
            Some(PluginKind::Cfg)
        } else if s == "system"@ {
            Some(PluginKind::System)
        } else if s == "cli"@ {
            Some(PluginKind::Cli)
        } else if s == "web"@ {
            Some(PluginKind::Web)
        } else if s == "music"@ {
            Some(PluginKind::Music)
        } else if s == "gui"@ {
            Some(PluginKind::Gui)
        } else if s == "mqtt"@ {
            Some(PluginKind::Mqtt)
        } else if s == "devices"@ {
            Some(PluginKind::Devices)
        } else if s == "infos"@ {
            Some(PluginKind::Infos)
        } else if s == "script"@ {
            Some(PluginKind::Script)
        } else if s == "weather"@ {
            Some(PluginKind::Weather)
        } else if s == "editor"@ {
            Some(PluginKind::Editor)
        } else if s == "command"@ {
            Some(PluginKind::Command)
        } else if s == "wol"@ {
            Some(PluginKind::Wol)
        } else if s == "ping"@ {
            Some(PluginKind::Ping)
        } else {
            None
        }
    }

    /// The word for this component.
    pub fn as_ref(&self) -> (out: &'static str)
        ensures
            out@ == self.name(),
    {
        match self {
            PluginKind::Log => "log",
            PluginKind::Cfg => "cfg",
            PluginKind::System => "system",
            PluginKind::Cli => "cli",
            PluginKind::Web => "web",
            PluginKind::Music => "music",
            PluginKind::Gui => "gui",
            PluginKind::Mqtt => "mqtt",
            PluginKind::Devices => "devices",
            PluginKind::Infos => "infos",
            PluginKind::Script => "script",
            PluginKind::Weather => "weather",
            PluginKind::Editor => "editor",
            PluginKind::Command => "command",
            PluginKind::Wol => "wol",
            PluginKind::Ping => "ping",
        }
    }

    /// The word for this component, as an owned string.
    pub fn to_string(&self) -> (out: String)
        ensures
            out@ == self.name(),
    {
        String::from_str(self.as_ref())
    }

    /// Reads a component from its word.
    pub fn parse(s: &str) -> (out: Option<PluginKind>)
        ensures
            out == PluginKind::named(s@),
    {
        if s.eq("log") {
            Some(PluginKind::Log)
        } else if s.eq("cfg") {
            Some(PluginKind::Cfg)
        } else if s.eq("system") {
            Some(PluginKind::System)
        } else if s.eq("cli") {
            Some(PluginKind::Cli)
        } else if s.eq("web") {
            Some(PluginKind::Web)
        } else if s.eq("music") {
            Some(PluginKind::Music)
        } else if s.eq("gui") {
            Some(PluginKind::Gui)
        } else if s.eq("mqtt") {
            Some(PluginKind::Mqtt)
        } else if s.eq("devices") {
            Some(PluginKind::Devices)
        } else if s.eq("infos") {
            Some(PluginKind::Infos)
        } else if s.eq("script") {
            Some(PluginKind::Script)
        } else if s.eq("weather") {
            Some(PluginKind::Weather)
        } else if s.eq("editor") {
            Some(PluginKind::Editor)
        } else if s.eq("command") {
            Some(PluginKind::Command)
        } else if s.eq("wol") {
            Some(PluginKind::Wol)
        } else if s.eq("ping") {
            Some(PluginKind::Ping)
        } else {
            None
        }
    }

    /// Writing a component and reading the word back gives the same component.
    pub proof fn lemma_named_name(x: PluginKind)
        ensures
            PluginKind::named(x.name()) == Some(x),
    {
        reveal_strlit("log");
        reveal_strlit("cfg");
        reveal_strlit("system");
        reveal_strlit("cli");
        reveal_strlit("web");
        reveal_strlit("music");
        reveal_strlit("gui");
        reveal_strlit("mqtt");
        reveal_strlit("devices");
        reveal_strlit("infos");
        reveal_strlit("script");
        reveal_strlit("weather");
        reveal_strlit("editor");
        reveal_strlit("command");
        reveal_strlit("wol");
        reveal_strlit("ping");
        assert("log"@.len() == 3);
        assert("cfg"@.len() == 3);
        assert("system"@.len() == 6);
        assert("cli"@.len() == 3);
        assert("web"@.len() == 3);
        assert("music"@.len() == 5);
        assert("gui"@.len() == 3);
        assert("mqtt"@.len() == 4);
        assert("devices"@.len() == 7);
        assert("infos"@.len() == 5);
        assert("script"@.len() == 6);
        assert("weather"@.len() == 7);
        assert("editor"@.len() == 6);
        assert("command"@.len() == 7);
        assert("wol"@.len() == 3);
        assert("ping"@.len() == 4);
        assert("log"@[0] == 'l');
        assert("log"@[1] == 'o');
        assert("cfg"@[0] == 'c');
        assert("cfg"@[1] == 'f');
        assert("cli"@[0] == 'c');
        assert("cli"@[1] == 'l');
        assert("web"@[0] == 'w');
        assert("web"@[1] == 'e');
        assert("gui"@[0] == 'g');
        assert("gui"@[1] == 'u');
        assert("wol"@[0] == 'w');
        assert("wol"@[1] == 'o');
        assert("mqtt"@[0] == 'm');
        assert("ping"@[0] == 'p');
        assert("music"@[0] == 'm');
        assert("infos"@[0] == 'i');
        assert("system"@[1] == 'y');
        assert("script"@[1] == 'c');
        assert("editor"@[1] == 'd');
        assert("devices"@[0] == 'd');
        assert("weather"@[0] == 'w');
        assert("command"@[0] == 'c');
    }

    /// A word that reads as a component is the word that writes it.
    pub proof fn lemma_name_named(s: Seq<char>)
        requires
            PluginKind::named(s) is Some,
        ensures
            PluginKind::named(s)->0.name() == s,
    {
    }
}


impl PluginKind {
    /// Whether a component of this kind owns a panel.
    pub open spec fn has_panel(self) -> bool {
        self == PluginKind::Log || self == PluginKind::Mqtt || self == PluginKind::Infos || self
            == PluginKind::Editor || self == PluginKind::Command
    }

    /// Whether a component of this kind owns a panel.
    pub fn owns_panel(&self) -> (out: bool)
        ensures
            out == self.has_panel(),
    {
        match self {
            PluginKind::Log
            | PluginKind::Mqtt
            | PluginKind::Infos
            | PluginKind::Editor
            | PluginKind::Command => true,
            _ => false,
        }
    }

    /// The panel that a component of this kind starts with, if it owns one:
    /// a normal panel that covers nothing yet.
    pub open spec fn first_panel(self) -> Option<PanelInfo> {
        if self.has_panel() {
            Some(PanelInfo { panel_type: PanelType::Normal, x: 0, y: 0, w: 0, h: 0 })
        } else {
            None
        }
    }
}

/// Why a component cannot be inserted.
#[derive(Clone, Copy, Debug, PartialEq, Eq, Structural)]
pub enum InsertError {
    /// A component of that name is registered already.
    AlreadyInserted,
    /// No component of that name can be constructed.
    UnknownName,
}

impl InsertError {
    /// The warning for this error, about the component `plugin`.
    pub open spec fn message_spec(self, plugin: Seq<char>) -> Seq<char> {
        match self {
            InsertError::AlreadyInserted => "Plugin `"@ + plugin + "` is already inserted."@,
            InsertError::UnknownName => "Unknown plugin name: `"@ + plugin + "`"@,
        }
    }

    /// The warning for this error, about the component `plugin`.
    pub fn message(&self, plugin: &str) -> (out: String)
        ensures
            out@ == self.message_spec(plugin@),
    {
        match self {
            InsertError::AlreadyInserted => concat3("Plugin `", plugin, "` is already inserted."),
            InsertError::UnknownName => concat3("Unknown plugin name: `", plugin, "`"),
        }
    }
}

/// The place of the first `name` in `names`, if it occurs.
pub open spec fn position(names: Seq<Seq<char>>, name: Seq<char>) -> Option<nat>
    decreases names.len(),
{
    if names.len() == 0 {
        None
    } else {
        match position(names.drop_last(), name) {
            Some(i) => Some(i),
            None => if names.last() == name {
                Some((names.len() - 1) as nat)
            } else {
                None
            },
        }
    }
}

/// [`position`] finds the first occurrence, and finds none only where there
/// is none.
pub proof fn lemma_position(names: Seq<Seq<char>>, name: Seq<char>)
    ensures
        position(names, name) matches Some(i) ==> i < names.len() && names[i as int] == name
            && forall|j: int| 0 <= j < i ==> names[j] != name,
        position(names, name) is None ==> forall|j: int| 0 <= j < names.len() ==> names[j] != name,
    decreases names.len(),
{
    if names.len() > 0 {
        lemma_position(names.drop_last(), name);
        assert forall|j: int| 0 <= j < names.len() - 1 implies names[j] == names.drop_last()[j] by {}
    }
}

/// The place that [`position`] gives is the only one that is a first occurrence.
pub proof fn lemma_position_is(names: Seq<Seq<char>>, name: Seq<char>, i: int)
    requires
        0 <= i < names.len(),
        names[i] == name,
        forall|j: int| 0 <= j < i ==> names[j] != name,
    ensures
        position(names, name) == Some(i as nat),
{
    lemma_position(names, name);
}

/// What the registry knows of a component, as a plain value.
pub struct ComponentView {
    pub name: Seq<char>,
    pub panel: Option<PanelInfo>,
}

/// One step of drawing: the panel at place `panel` of the panel order, owned
/// by the component at place `plugin` of the registry, is drawn into `area`,
/// in the style of the active panel or of an inactive one.
#[derive(Clone, Copy, Debug, PartialEq, Eq, Structural)]
pub struct DrawCall {
    pub panel: usize,
    pub plugin: usize,
    pub area: Rect,
    pub active: bool,
}

/// The cells of a panel in a terminal that covers `area`. The pinned command
/// panel takes the rows kept for it, over the full width; every other panel
/// takes what its percentages give. Either is clamped to `area`.
pub open spec fn panel_area_spec(name: Seq<char>, info: PanelInfo, area: Rect) -> Rect {
    if name == COMMAND@ {
        panel_rect_spec(0, usable_height(area.height), area.width, COMMAND_ROWS, area)
    } else {
        let p = caculate_position_spec(area, info.x, info.y, info.w, info.h);
        panel_rect_spec(p.0, p.1, p.2, p.3, area)
    }
}

/// The registry as a plain value.
pub struct PluginsView {
    pub plugins: Seq<ComponentView>,
    pub mode: Mode,
    pub script: Seq<char>,
    pub panels: Seq<Seq<char>>,
    pub active_panel: nat,
    pub active_popup: Option<nat>,
}

/// A state of the registry together with the effects of reaching it.
pub struct Outcome {
    pub state: PluginsView,
    pub effects: Seq<EffectView>,
}

/// The effect that logs `msg` for information, in the name of the registry.
pub open spec fn info(msg: Seq<char>) -> EffectView {
    log_effect(Level::Info, MODULE@, msg)
}

/// The effect that logs `msg` as a warning, in the name of the registry.
pub open spec fn warning(msg: Seq<char>) -> EffectView {
    log_effect(Level::Warn, MODULE@, msg)
}

/// The warning that a parameter is missing from the command `parts`.
pub open spec fn missing(what: Seq<char>, command: Seq<char>, parts: Seq<Seq<char>>) -> EffectView {
    warning(MsgTemplate::MissingParameters.format_spec(what, command, join_spec(parts, " "@)))
}

/// The warning that the parameter `what` of the command `parts` cannot be
/// `given`.
pub open spec fn invalid(
    what: Seq<char>,
    given: Seq<char>,
    command: Seq<char>,
    parts: Seq<Seq<char>>,
) -> EffectView {
    warning(
        MsgTemplate::InvalidParameters.format_spec(
            what + " (`"@ + given + "`)"@,
            command,
            join_spec(parts, " "@),
        ),
    )
}

/// The action that the words of a command name, or the warning that says why
/// they name none. The action is the third word.
pub open spec fn action_of(parts: Seq<Seq<char>>) -> Result<Action, EffectView> {
    match action_or_warning(parts) {
        Ok(action) => Ok(action),
        Err(w) => Err(warning(w)),
    }
}

impl PluginsView {
    /// The names of the registered components, in the order of insertion.
    pub open spec fn names(self) -> Seq<Seq<char>> {
        Seq::new(self.plugins.len(), |i: int| self.plugins[i].name)
    }

    /// No name is registered twice, no panel is listed twice, and the active
    /// panel and the active popup are panels that exist.
    pub open spec fn wf(self) -> bool {
        &&& forall|i: int, j: int|
            0 <= i < j < self.plugins.len() ==> self.plugins[i].name != self.plugins[j].name
        &&& forall|i: int, j: int| 0 <= i < j < self.panels.len() ==> self.panels[i] != self.panels[j]
        &&& self.active_panel < self.panels.len() || (self.panels.len() == 0 && self.active_panel
            == 0)
        &&& self.active_popup matches Some(p) ==> p < self.panels.len()
    }

    /// The registry before anything was inserted.
    pub open spec fn empty(mode: Mode, script: Seq<char>) -> PluginsView {
        PluginsView {
            plugins: Seq::empty(),
            mode,
            script,
            panels: Seq::empty(),
            active_panel: 0,
            active_popup: None,
        }
    }

    /// The panel of the component `name`, if that component is registered and
    /// owns one.
    pub open spec fn panel_info(self, name: Seq<char>) -> Option<PanelInfo> {
        match position(self.names(), name) {
            Some(i) => self.plugins[i as int].panel,
            None => None,
        }
    }

    /// The kind of the panel at place `i` of the panel order, if its
    /// component is registered and owns a panel.
    pub open spec fn panel_type(self, i: int) -> Option<PanelType> {
        if 0 <= i < self.panels.len() {
            match self.panel_info(self.panels[i]) {
                Some(info) => Some(info.panel_type),
                None => None,
            }
        } else {
            None
        }
    }

    /// Whether the panel at place `i` is a popup.
    pub open spec fn is_popup(self, i: int) -> bool {
        self.panel_type(i) == Some(PanelType::Popup)
    }

    /// Whether the panel at place `i` is a normal panel.
    pub open spec fn is_normal(self, i: int) -> bool {
        self.panel_type(i) == Some(PanelType::Normal)
    }

    /// Whether the component `plugin` may be inserted, and as what.
    pub open spec fn insert_check(self, plugin: Seq<char>) -> Result<PluginKind, InsertError> {
        if position(self.names(), plugin) is Some {
            Err(InsertError::AlreadyInserted)
        } else {
            match PluginKind::named(plugin) {
                Some(kind) => Ok(kind),
                None => Err(InsertError::UnknownName),
            }
        }
    }

    /// The registry after the component `plugin` was inserted, where it may
    /// be; else the registry as it is.
    pub open spec fn insert(self, plugin: Seq<char>) -> PluginsView {
        match self.insert_check(plugin) {
            Ok(kind) => PluginsView {
                plugins: self.plugins.push(
                    ComponentView { name: plugin, panel: kind.first_panel() },
                ),
                ..self
            },
            Err(_) => self,
        }
    }

    /// The registry after the panel of the component `name` was set to
    /// `info`; unchanged where no such component is registered.
    pub open spec fn set_panel_info(self, name: Seq<char>, info: PanelInfo) -> PluginsView {
        match position(self.names(), name) {
            Some(i) => PluginsView {
                plugins: self.plugins.update(i as int, ComponentView { name, panel: Some(info) }),
                ..self
            },
            None => self,
        }
    }

    /// The registry after the panel `panel` was listed, where it was not
    /// listed before; else the registry as it is.
    pub open spec fn insert_panel(self, panel: Seq<char>) -> PluginsView {
        if position(self.panels, panel) is Some {
            self
        } else {
            PluginsView { panels: self.panels.push(panel), ..self }
        }
    }

    /// The first place from `lo` up to, but not including, `hi` whose panel
    /// is no popup.
    pub open spec fn next_stop(self, lo: nat, hi: nat) -> Option<nat>
        decreases hi - lo,
    {
        if lo >= hi {
            None
        } else if !self.is_popup(lo as int) {
            Some(lo)
        } else {
            self.next_stop(lo + 1, hi)
        }
    }

    /// The panel that the tab key moves to: the first after the active panel
    /// that is no popup, going round the panel order and ending with the
    /// active panel itself.
    pub open spec fn tab_target(self) -> Option<nat> {
        match self.next_stop(self.active_panel + 1, self.panels.len()) {
            Some(i) => Some(i),
            None => self.next_stop(0, self.active_panel + 1),
        }
    }

    /// The registry after the tab key: with no popup active, the next panel
    /// round the panel order that is no popup becomes the active one.
    /// Nothing changes while a popup is active, or where no panel, or none
    /// but popups, is listed.
    pub open spec fn tab(self) -> PluginsView {
        if self.active_popup is Some || self.panels.len() == 0 {
            self
        } else {
            match self.tab_target() {
                Some(i) => PluginsView { active_panel: i, ..self },
                None => self,
            }
        }
    }

    /// The place of the popup panel `name`, if a panel of that name is listed
    /// and is a popup.
    pub open spec fn popup_index(self, name: Seq<char>) -> Option<nat> {
        match position(self.panels, name) {
            Some(i) => if self.is_popup(i as int) {
                Some(i)
            } else {
                None
            },
            None => None,
        }
    }

    /// The registry after a popup was asked for by name, or, without a name,
    /// after the popup was closed.
    pub open spec fn popup(self, name: Option<Seq<char>>) -> PluginsView {
        match name {
            Some(name) => match self.popup_index(name) {
                Some(i) => PluginsView { active_popup: Some(i), ..self },
                None => self,
            },
            None => PluginsView { active_popup: None, ..self },
        }
    }

    /// The panel that gets the keys: the active popup where there is one,
    /// else the active panel.
    pub open spec fn key_target(self) -> Option<Seq<char>> {
        match self.active_popup {
            Some(p) => if p < self.panels.len() {
                Some(self.panels[p as int])
            } else {
                None
            },
            None => if self.active_panel < self.panels.len() {
                Some(self.panels[self.active_panel as int])
            } else {
                None
            },
        }
    }
}

/// One log line for each of `items`, as an entry of a list.
pub open spec fn listing(items: Seq<Seq<char>>) -> Seq<EffectView> {
    Seq::new(items.len(), |i: int| info("    - "@ + items[i]))
}

/// The command that hands the key `key` to the component `panel`.
pub open spec fn key_cmd(panel: Seq<char>, key: Key) -> Seq<char> {
    "p "@ + panel + " key "@ + key.name()
}

impl PluginsView {
    /// The registry as it is, with the given effects.
    pub open spec fn unchanged(self, effects: Seq<EffectView>) -> Outcome {
        Outcome { state: self, effects }
    }

    /// `help`: says what can be asked of the registry.
    pub open spec fn handle_help(self) -> Outcome {
        self.unchanged(seq![info("help"@), info("  insert <plugin>"@)])
    }

    /// `show`: lists the registered components, then the panels.
    pub open spec fn handle_show(self) -> Outcome {
        self.unchanged(
            seq![info("show"@), info("  - Plugins:"@)] + listing(self.names()) + seq![
                info("  - Panels:"@),
            ] + (if self.panels.len() == 0 {
                seq![info("    - <none>"@)]
            } else {
                listing(self.panels)
            }),
        )
    }

    /// `insert <plugin>`: asks for the component to be constructed and
    /// inserted, where it is known and not registered yet; warns otherwise.
    /// The registry itself changes only when the component is inserted.
    pub open spec fn handle_insert(self, parts: Seq<Seq<char>>) -> Outcome {
        if parts.len() <= 3 {
            self.unchanged(seq![info("insert"@), missing("<plugin>"@, "insert"@, parts)])
        } else {
            self.unchanged(
                seq![
                    info("insert"@),
                    info("  - `"@ + parts[3] + "`"@),
                    match self.insert_check(parts[3]) {
                        Ok(_) => EffectView::Insert { plugin: parts[3] },
                        Err(e) => warning(e.message_spec(parts[3])),
                    },
                ],
            )
        }
    }

    /// `insert_panel <panel>`: lists the panel and draws, or warns that it is
    /// listed already.
    pub open spec fn handle_insert_panel(self, parts: Seq<Seq<char>>) -> Outcome {
        if parts.len() <= 3 {
            self.unchanged(
                seq![info("insert_panel"@), missing("<panel>"@, "insert_panel"@, parts)],
            )
        } else if position(self.panels, parts[3]) is Some {
            self.unchanged(
                seq![
                    info("insert_panel"@),
                    warning("Panel `"@ + parts[3] + "` is already inserted."@),
                ],
            )
        } else {
            Outcome {
                state: self.insert_panel(parts[3]),
                effects: seq![
                    info("insert_panel"@),
                    info("  - `"@ + parts[3] + "`"@),
                    EffectView::Redraw,
                ],
            }
        }
    }

    /// `key <code>`: the tab key moves on to the next panel and draws; any
    /// other key is sent to the component whose panel gets the keys.
    pub open spec fn handle_key(self, parts: Seq<Seq<char>>) -> Outcome {
        if parts.len() <= 3 {
            self.unchanged(seq![missing("<key>"@, "key"@, parts)])
        } else {
            match Key::named(parts[3]) {
                None => self.unchanged(seq![invalid("<key>"@, parts[3], "key"@, parts)]),
                Some(Key::Tab) => Outcome { state: self.tab(), effects: seq![EffectView::Redraw] },
                Some(key) => match self.key_target() {
                    Some(panel) => self.unchanged(
                        seq![EffectView::Send { origin: MODULE@, cmd: key_cmd(panel, key) }],
                    ),
                    None => self.unchanged(
                        seq![warning("No panel to send key `"@ + parts[3] + "` to."@)],
                    ),
                },
            }
        }
    }

    /// `popup [<panel>]`: makes the named popup the active one, or, without
    /// a name, closes the popup; warns where the name is that of no popup.
    /// It always draws.
    pub open spec fn handle_popup(self, parts: Seq<Seq<char>>) -> Outcome {
        if parts.len() <= 3 {
            Outcome { state: self.popup(None), effects: seq![info("popup"@), EffectView::Redraw] }
        } else if self.popup_index(parts[3]) is Some {
            Outcome {
                state: self.popup(Some(parts[3])),
                effects: seq![info("popup"@), EffectView::Redraw],
            }
        } else {
            self.unchanged(
                seq![
                    info("popup"@),
                    warning("Popup panel `"@ + parts[3] + "` not found."@),
                    EffectView::Redraw,
                ],
            )
        }
    }

    /// What the registry does with a command addressed to itself.
    pub open spec fn my_handle_action(self, action: Action, parts: Seq<Seq<char>>) -> Outcome {
        match action {
            Action::Help => self.handle_help(),
            Action::Show => self.handle_show(),
            Action::Insert => self.handle_insert(parts),
            Action::InsertPanel => self.handle_insert_panel(parts),
            Action::Redraw => self.unchanged(seq![EffectView::Redraw]),
            Action::Key => self.handle_key(parts),
            Action::Popup => self.handle_popup(parts),
            _ => self.unchanged(
                seq![warning(MsgTemplate::UnsupportedAction.format_spec(action.name(), ""@, ""@))],
            ),
        }
    }

    /// What the registry does with the words of a command: the second word
    /// names the destination, the third the action. A command for the
    /// registry is handled here. A command for a registered component is
    /// handed to that component, whole, and to no other. Anything else is
    /// dropped with one warning.
    pub open spec fn dispatch_parts(self, parts: Seq<Seq<char>>) -> Outcome {
        if parts.len() < 2 {
            self.unchanged(seq![missing("<plugin_name>"@, USAGE@, parts)])
        } else if parts[1] == MODULE@ {
            match action_of(parts) {
                Ok(action) => self.my_handle_action(action, parts),
                Err(w) => self.unchanged(seq![w]),
            }
        } else {
            match position(self.names(), parts[1]) {
                Some(index) => match action_of(parts) {
                    Ok(action) => self.unchanged(
                        seq![EffectView::Invoke { index, action, cmd_parts: parts }],
                    ),
                    Err(w) => self.unchanged(seq![w]),
                },
                None => self.unchanged(seq![invalid("<plugin_name>"@, parts[1], USAGE@, parts)]),
            }
        }
    }

    /// What the registry does with a command line: it is split into words as
    /// a shell would, and the words are dispatched; a line that cannot be
    /// split is dropped with a warning.
    pub open spec fn dispatch(self, cmd: Seq<char>) -> Outcome {
        match shell_split(cmd) {
            Some(parts) => self.dispatch_parts(parts),
            None => self.unchanged(seq![warning("Failed to parse cmd `"@ + cmd + "`."@)]),
        }
    }

    /// The drawing of the panel at place `i` of the panel order, whose
    /// component is registered and owns a panel.
    pub open spec fn draw_call(self, i: int, area: Rect, active: bool) -> DrawCall {
        DrawCall {
            panel: i as usize,
            plugin: position(self.names(), self.panels[i])->0 as usize,
            area: panel_area_spec(self.panels[i], self.panel_info(self.panels[i])->0, area),
            active,
        }
    }

    /// The drawings of the normal panels among the first `upto` that are not
    /// the active panel, in the order of the panels.
    pub open spec fn draw_inactive(self, upto: nat, area: Rect) -> Seq<DrawCall>
        decreases upto,
    {
        if upto == 0 {
            Seq::empty()
        } else {
            let i = upto - 1;
            let before = self.draw_inactive(i as nat, area);
            if i != self.active_panel && self.is_normal(i) {
                before.push(self.draw_call(i, area, false))
            } else {
                before
            }
        }
    }

    /// What is drawn, first to last, in a terminal that covers `area`: the
    /// normal panels that are not active, in panel order; then the active
    /// panel, where it is a normal panel; last the active popup. A later
    /// drawing covers an earlier one where they overlap.
    pub open spec fn draw(self, area: Rect) -> Seq<DrawCall> {
        self.draw_inactive(self.panels.len(), area) + (if self.is_normal(self.active_panel as int) {
            seq![self.draw_call(self.active_panel as int, area, true)]
        } else {
            Seq::empty()
        }) + (match self.active_popup {
            Some(p) => if self.is_popup(p as int) {
                seq![self.draw_call(p as int, area, true)]
            } else {
                Seq::empty()
            },
            None => Seq::empty(),
        })
    }
}

impl PluginsView {
    /// [`PluginsView::next_stop`] gives a place that holds no popup, and
    /// gives none only where every place holds one.
    pub proof fn lemma_next_stop(self, lo: nat, hi: nat)
        ensures
            self.next_stop(lo, hi) matches Some(i) ==> lo <= i < hi && !self.is_popup(i as int),
            self.next_stop(lo, hi) is None ==> forall|i: int| lo <= i < hi ==> self.is_popup(i),
        decreases hi - lo,
    {
        if lo < hi && self.is_popup(lo as int) {
            self.lemma_next_stop(lo + 1, hi);
        }
    }

    /// However panels were listed and whatever was active before: where some
    /// listed panel is no popup and no popup is active, the tab key makes a
    /// panel active that is no popup.
    pub proof fn lemma_tab_skips_popups(self)
        requires
            self.wf(),
            self.active_popup is None,
            exists|i: int| 0 <= i < self.panels.len() && !self.is_popup(i),
        ensures
            self.tab().wf(),
            self.tab().active_panel < self.panels.len(),
            !self.tab().is_popup(self.tab().active_panel as int),
    {
        self.lemma_next_stop(self.active_panel + 1, self.panels.len());
        self.lemma_next_stop(0, self.active_panel + 1);
        let after = self.tab();
        assert(after.names() == self.names());
        assert forall|i: int| after.is_popup(i) == self.is_popup(i) by {}
    }

    /// The tab key never changes which panels are listed, which components
    /// are registered, or which popup is active; while a popup is active it
    /// changes nothing at all.
    pub proof fn lemma_tab_keeps_rest(self)
        requires
            self.wf(),
        ensures
            self.tab().wf(),
            self.tab().panels == self.panels,
            self.tab().plugins == self.plugins,
            self.tab().active_popup == self.active_popup,
            self.active_popup is Some ==> self.tab() == self,
    {
        self.lemma_next_stop(self.active_panel + 1, self.panels.len());
        self.lemma_next_stop(0, self.active_panel + 1);
    }

    /// Listing a panel twice in a row is the same as listing it once, and the
    /// panel is then listed at exactly one place.
    pub proof fn lemma_insert_panel_idempotent(self, panel: Seq<char>)
        requires
            self.wf(),
        ensures
            self.insert_panel(panel).wf(),
            self.insert_panel(panel).insert_panel(panel) == self.insert_panel(panel),
            exists|i: int|
                0 <= i < self.insert_panel(panel).panels.len() && self.insert_panel(panel).panels[i]
                    == panel && forall|j: int|
                    0 <= j < self.insert_panel(panel).panels.len() && j != i
                        ==> self.insert_panel(panel).panels[j] != panel,
    {
        let once = self.insert_panel(panel);
        lemma_position(self.panels, panel);
        if position(self.panels, panel) is None {
            let last = self.panels.len() as int;
            assert(once.panels[last] == panel);
            lemma_position_is(once.panels, panel, last);
        }
        lemma_position(once.panels, panel);
        let at = position(once.panels, panel)->0 as int;
        assert(once.panels[at] == panel);
        assert forall|j: int| 0 <= j < once.panels.len() && j != at implies once.panels[j]
            != panel by {
            if j < at {
                assert(once.panels[j] != once.panels[at]);
            } else {
                assert(once.panels[at] != once.panels[j]);
            }
        }
    }

    /// The command `insert_panel <panel>`, given twice in a row, leaves the
    /// panel listed once: the second command changes nothing.
    pub proof fn lemma_insert_panel_twice(self, parts: Seq<Seq<char>>)
        requires
            self.wf(),
            parts.len() >= 4,
            parts[1] == MODULE@,
            parts[2] == "insert_panel"@,
        ensures
            self.dispatch_parts(parts).state == self.insert_panel(parts[3]),
            self.dispatch_parts(parts).state.dispatch_parts(parts).state == self.dispatch_parts(
                parts,
            ).state,
    {
        Action::lemma_named_name(Action::InsertPanel);
        self.lemma_insert_panel_idempotent(parts[3]);
    }

    /// At most one popup is active: asking for a popup while another is
    /// active makes the one asked for the only active popup, and it gets the
    /// keys.
    pub proof fn lemma_popup_replaces_popup(self, first: Seq<char>, other: Seq<char>)
        requires
            self.wf(),
            self.popup_index(other) is Some,
        ensures
            self.popup(Some(first)).popup(Some(other)).active_popup == self.popup_index(other),
            self.popup(Some(first)).popup(Some(other)).key_target() == Some(other),
            self.popup(Some(first)).popup(Some(other)).wf(),
    {
        let mid = self.popup(Some(first));
        assert(mid.names() == self.names());
        assert(mid.panels == self.panels);
        assert(mid.popup_index(other) == self.popup_index(other));
        lemma_position(self.panels, other);
        lemma_position(self.panels, first);
    }

    /// Closing the popup hands the keys back to the panel that was active
    /// before the popup was opened.
    pub proof fn lemma_popup_close_restores(self, name: Seq<char>)
        requires
            self.wf(),
            self.active_popup is None,
        ensures
            self.popup(Some(name)).popup(None) == self,
            self.popup(Some(name)).popup(None).key_target() == self.key_target(),
    {
    }

    /// Every command leaves the registry in order.
    pub proof fn lemma_dispatch_keeps_wf(self, parts: Seq<Seq<char>>)
        requires
            self.wf(),
        ensures
            self.dispatch_parts(parts).state.wf(),
    {
        self.lemma_tab_keeps_rest();
        if parts.len() >= 4 {
            self.lemma_insert_panel_idempotent(parts[3]);
            lemma_position(self.panels, parts[3]);
        }
    }

    /// A command for a registered component, with an action of the
    /// vocabulary, has exactly one effect: one call of that component's
    /// handler, with the words of the command, all of them and unchanged.
    /// The registry does not change.
    pub proof fn lemma_dispatch_invokes_once(self, parts: Seq<Seq<char>>)
        requires
            parts.len() >= 3,
            parts[1] != MODULE@,
            position(self.names(), parts[1]) is Some,
            Action::named(parts[2]) is Some,
        ensures
            self.dispatch_parts(parts) == (Outcome {
                state: self,
                effects: seq![
                    EffectView::Invoke {
                        index: position(self.names(), parts[1])->0,
                        action: Action::named(parts[2])->0,
                        cmd_parts: parts,
                    },
                ],
            }),
    {
    }

    /// A command whose action is not of the vocabulary has exactly one
    /// effect, a warning, whatever its destination. No handler is called and
    /// the registry does not change.
    pub proof fn lemma_unknown_action_warns_once(self, parts: Seq<Seq<char>>)
        requires
            parts.len() >= 3,
            Action::named(parts[2]) is None,
        ensures
            self.dispatch_parts(parts).state == self,
            self.dispatch_parts(parts).effects.len() == 1,
            is_warning(self.dispatch_parts(parts).effects[0]),
    {
        let e = self.dispatch_parts(parts).effects[0];
        if parts[1] == MODULE@ || position(self.names(), parts[1]) is Some {
            assert(e == warning(action_or_warning(parts)->Err_0));
        } else {
            assert(e == invalid("<plugin_name>"@, parts[1], USAGE@, parts));
        }
    }

    /// The same two laws for a command line: where the line splits into
    /// words, what holds of the words holds of the line.
    pub proof fn lemma_dispatch_line(self, cmd: Seq<char>)
        requires
            shell_split(cmd) is Some,
        ensures
            self.dispatch(cmd) == self.dispatch_parts(shell_split(cmd)->0),
    {
    }

    /// The active popup is drawn last, and the active panel after every
    /// other normal panel.
    pub proof fn lemma_draw_order(self, area: Rect)
        requires
            self.wf(),
        ensures
            self.active_popup is Some && self.is_popup(self.active_popup->0 as int) ==> self.draw(
                area,
            ).last() == self.draw_call(self.active_popup->0 as int, area, true),
            forall|k: int|
                0 <= k < self.draw_inactive(self.panels.len(), area).len() ==> self.draw(area)[k]
                    == self.draw_inactive(self.panels.len(), area)[k] && !self.draw(area)[k].active,
    {
        self.lemma_draw_inactive(self.panels.len(), area);
    }

    /// The drawings of the inactive panels are all in the inactive style.
    pub proof fn lemma_draw_inactive(self, upto: nat, area: Rect)
        ensures
            forall|k: int|
                0 <= k < self.draw_inactive(upto, area).len() ==> !(#[trigger] self.draw_inactive(
                    upto,
                    area,
                )[k]).active,
        decreases upto,
    {
        if upto > 0 {
            self.lemma_draw_inactive((upto - 1) as nat, area);
            let before = self.draw_inactive((upto - 1) as nat, area);
            let all = self.draw_inactive(upto, area);
            assert forall|k: int| 0 <= k < all.len() implies !(#[trigger] all[k]).active by {
                if k < before.len() {
                    assert(all[k] == before[k]);
                }
            }
        }
    }
}

/// What the registry keeps of a component: its name, and its panel if it
/// owns one. The component's own state lives with the component.
#[derive(Debug)]
pub struct Component {
    pub name: String,
    pub panel: Option<PanelInfo>,
}

impl View for Component {
    type V = ComponentView;

    open spec fn view(&self) -> ComponentView {
        ComponentView { name: self.name@, panel: self.panel }
    }
}

/// The registry of components and the order of their panels.
#[derive(Debug)]
pub struct Plugins {
    plugins: Vec<Component>,
    mode: Mode,
    script: String,
    panels: Vec<String>,
    active_panel: usize,
    active_popup: Option<usize>,
}

impl View for Plugins {
    type V = PluginsView;

    closed spec fn view(&self) -> PluginsView {
        PluginsView {
            plugins: Seq::new(self.plugins@.len(), |i: int| self.plugins@[i]@),
            mode: self.mode,
            script: self.script@,
            panels: words_view(self.panels@),
            active_panel: self.active_panel as nat,
            active_popup: match self.active_popup {
                Some(p) => Some(p as nat),
                None => None,
            },
        }
    }
}

fn info_effect(msg: &str) -> (out: Effect)
    ensures
        out@ == info(msg@),
{
    Effect::info(MODULE, msg)
}

fn warn_effect(msg: &str) -> (out: Effect)
    ensures
        out@ == warning(msg@),
{
    Effect::warn(MODULE, msg)
}

fn missing_effect(what: &str, command: &str, cmd_parts: &Vec<String>) -> (out: Effect)
    ensures
        out@ == missing(what@, command@, words_view(cmd_parts@)),
{
    let given = join(cmd_parts, " ");
    warn_effect(MsgTemplate::MissingParameters.format(what, command, given.as_str()).as_str())
}

fn invalid_effect(what: &str, given: &str, command: &str, cmd_parts: &Vec<String>) -> (out: Effect)
    ensures
        out@ == invalid(what@, given@, command@, words_view(cmd_parts@)),
{
    let mut param = String::from_str(what);
    param.append(" (`");
    param.append(given);
    param.append("`)");
    let line = join(cmd_parts, " ");
    warn_effect(
        MsgTemplate::InvalidParameters.format(param.as_str(), command, line.as_str()).as_str(),
    )
}

fn get_action(cmd_parts: &Vec<String>) -> (out: Result<Action, Effect>)
    ensures
        out matches Ok(action) ==> action_of(words_view(cmd_parts@)) == Ok::<Action, EffectView>(
            action,
        ),
        out matches Err(e) ==> action_of(words_view(cmd_parts@)) == Err::<Action, EffectView>(e@),
{
    match common::get_action(cmd_parts) {
        Ok(action) => Ok(action),
        Err(w) => Err(warn_effect(w.as_str())),
    }
}

/// The cells of the panel of the component `name` (see [`panel_area_spec`]).
pub fn panel_area(name: &str, info: &PanelInfo, area: Rect) -> (out: Rect)
    ensures
        out == panel_area_spec(name@, *info, area),
{
    if name.eq(COMMAND) {
        let top: u16 = if area.height < COMMAND_ROWS {
            0
        } else {
            area.height - COMMAND_ROWS
        };
        panel_rect(0, top, area.width, COMMAND_ROWS, area)
    } else {
        let p = caculate_position(area, info.x, info.y, info.w, info.h);
        panel_rect(p.0, p.1, p.2, p.3, area)
    }
}

impl Plugins {
    /// Whether the registry is in order (see [`PluginsView::wf`]).
    pub open spec fn wf(&self) -> bool {
        self@.wf()
    }

    /// A registry without components and without panels.
    pub fn new(mode: Mode, script: &str) -> (out: Plugins)
        ensures
            out@ == PluginsView::empty(mode, script@),
            out.wf(),
    {
        let out = Plugins {
            plugins: Vec::new(),
            mode,
            script: String::from_str(script),
            panels: Vec::new(),
            active_panel: 0,
            active_popup: None,
        };
        assert(out@.plugins =~= Seq::empty());
        assert(out@.panels =~= Seq::empty());
        out
    }

    /// The mode that the process runs in.
    pub fn mode(&self) -> (out: Mode)
        ensures
            out == self@.mode,
    {
        self.mode
    }

    /// The script that the process was started with.
    pub fn script(&self) -> (out: &str)
        ensures
            out@ == self@.script,
    {
        self.script.as_str()
    }

    /// The number of registered components.
    pub fn len(&self) -> (out: usize)
        ensures
            out == self@.plugins.len(),
    {
        self.plugins.len()
    }

    /// The names of the panels, in the order in which they were listed.
    pub fn panels(&self) -> (out: &Vec<String>)
        ensures
            words_view(out@) == self@.panels,
    {
        &self.panels
    }

    /// The place of the active panel in the panel order.
    pub fn active_panel(&self) -> (out: usize)
        ensures
            out == self@.active_panel,
    {
        self.active_panel
    }

    /// The place of the active popup in the panel order, if a popup is active.
    pub fn active_popup(&self) -> (out: Option<usize>)
        ensures
            out is Some == self@.active_popup is Some,
            out matches Some(p) ==> self@.active_popup == Some(p as nat),
    {
        self.active_popup
    }

    fn find_plugin(&self, name: &str) -> (out: Option<usize>)
        ensures
            out matches Some(i) ==> i < self.plugins.len() && position(self@.names(), name@)
                == Some(i as nat),
            out is None ==> position(self@.names(), name@) is None,
    {
        let ghost names = self@.names();
        let mut i: usize = 0;
        while i < self.plugins.len()
            invariant
                i <= self.plugins.len(),
                names == self@.names(),
                names.len() == self.plugins.len(),
                forall|j: int| 0 <= j < i ==> names[j] != name@,
            decreases self.plugins.len() - i,
        {
            if self.plugins[i].name.as_str().eq(name) {
                proof {
                    assert(names[i as int] == self.plugins@[i as int].name@);
                    lemma_position_is(names, name@, i as int);
                }
                return Some(i);
            }
            proof {
                assert(names[i as int] == self.plugins@[i as int].name@);
            }
            i += 1;
        }
        proof {
            lemma_position(names, name@);
        }
        None
    }

    fn find_panel(&self, name: &str) -> (out: Option<usize>)
        ensures
            out matches Some(i) ==> i < self.panels.len() && position(self@.panels, name@) == Some(
                i as nat,
            ),
            out is None ==> position(self@.panels, name@) is None,
    {
        let ghost names = self@.panels;
        let mut i: usize = 0;
        while i < self.panels.len()
            invariant
                i <= self.panels.len(),
                names == self@.panels,
                names.len() == self.panels.len(),
                forall|j: int| 0 <= j < i ==> names[j] != name@,
            decreases self.panels.len() - i,
        {
            if self.panels[i].as_str().eq(name) {
                proof {
                    lemma_position_is(names, name@, i as int);
                }
                return Some(i);
            }
            i += 1;
        }
        proof {
            lemma_position(names, name@);
        }
        None
    }

    /// The registered component of the given name.
    pub fn get_plugin(&self, name: &str) -> (out: Option<&Component>)
        ensures
            out is Some == position(self@.names(), name@) is Some,
            out matches Some(c) ==> c@ == self@.plugins[position(self@.names(), name@)->0 as int],
    {
        match self.find_plugin(name) {
            Some(i) => Some(&self.plugins[i]),
            None => None,
        }
    }

    /// Whether, and as what, the component `plugin` may be inserted.
    pub fn can_insert(&self, plugin: &str) -> (out: Result<PluginKind, InsertError>)
        ensures
            out == self@.insert_check(plugin@),
    {
        if self.find_plugin(plugin).is_some() {
            return Err(InsertError::AlreadyInserted);
        }
        match PluginKind::parse(plugin) {
            Some(kind) => Ok(kind),
            None => Err(InsertError::UnknownName),
        }
    }

    /// Registers the component `plugin`. It fails, and changes nothing, where
    /// a component of that name is registered already or the name is that of
    /// no known component.
    pub fn insert(&mut self, plugin: &str) -> (out: Result<(), InsertError>)
        requires
            old(self).wf(),
        ensures
            final(self).wf(),
            final(self)@ == old(self)@.insert(plugin@),
            out is Ok == old(self)@.insert_check(plugin@) is Ok,
            out matches Err(e) ==> old(self)@.insert_check(plugin@) == Err::<
                PluginKind,
                InsertError,
            >(e),
    {
        match self.can_insert(plugin) {
            Err(e) => Err(e),
            Ok(kind) => {
                let panel = if kind.owns_panel() {
                    Some(PanelInfo::new(PanelType::Normal))
                } else {
                    None
                };
                proof {
                    lemma_position(self@.names(), plugin@);
                }
                self.plugins.push(Component { name: String::from_str(plugin), panel });
                proof {
                    let before = old(self)@;
                    assert(self@.plugins =~= before.plugins.push(
                        ComponentView { name: plugin@, panel: kind.first_panel() },
                    ));
                    assert forall|i: int, j: int| 0 <= i < j < self@.plugins.len() implies self@.plugins[i].name
                        != self@.plugins[j].name by {
                        if j < before.plugins.len() {
                        } else {
                            assert(before.names()[i] == before.plugins[i].name);
                        }
                    }
                }
                Ok(())
            },
        }
    }

    /// Sets the panel of the component `name`, and says whether there is such
    /// a component.
    pub fn set_panel_info(&mut self, name: &str, info: PanelInfo) -> (out: bool)
        requires
            old(self).wf(),
        ensures
            final(self).wf(),
            final(self)@ == old(self)@.set_panel_info(name@, info),
            out == position(old(self)@.names(), name@) is Some,
    {
        match self.find_plugin(name) {
            None => false,
            Some(i) => {
                proof {
                    lemma_position(self@.names(), name@);
                }
                self.plugins.set(i, Component { name: String::from_str(name), panel: Some(info) });
                proof {
                    let before = old(self)@;
                    assert(before.names()[i as int] == before.plugins[i as int].name);
                    assert(self@.plugins =~= before.plugins.update(
                        i as int,
                        ComponentView { name: name@, panel: Some(info) },
                    ));
                }
                true
            },
        }
    }

    fn panel_type_at(&self, i: usize) -> (out: Option<PanelType>)
        requires
            i < self.panels.len(),
        ensures
            out == self@.panel_type(i as int),
    {
        match self.find_plugin(self.panels[i].as_str()) {
            Some(k) => {
                proof {
                    assert(self@.plugins[k as int] == self.plugins@[k as int]@);
                }
                match self.plugins[k].panel {
                    Some(info) => Some(info.panel_type),
                    None => None,
                }
            },
            None => None,
        }
    }

    fn is_popup_at(&self, i: usize) -> (out: bool)
        requires
            i < self.panels.len(),
        ensures
            out == self@.is_popup(i as int),
    {
        match self.panel_type_at(i) {
            Some(PanelType::Popup) => true,
            _ => false,
        }
    }

    fn next_stop(&self, lo: usize, hi: usize) -> (out: Option<usize>)
        requires
            hi <= self.panels.len(),
        ensures
            out matches Some(i) ==> i < hi && self@.next_stop(lo as nat, hi as nat) == Some(
                i as nat,
            ),
            out is None ==> self@.next_stop(lo as nat, hi as nat) is None,
    {
        let mut i: usize = lo;
        while i < hi
            invariant
                lo <= i,
                hi <= self.panels.len(),
                self@.next_stop(lo as nat, hi as nat) == self@.next_stop(i as nat, hi as nat),
            decreases hi - i,
        {
            if !self.is_popup_at(i) {
                return Some(i);
            }
            i += 1;
        }
        None
    }

    fn handle_action_help(&self) -> (out: Vec<Effect>)
        ensures
            effects_view(out@) == self@.handle_help().effects,
    {
        let mut out: Vec<Effect> = Vec::new();
        push_effect(&mut out, info_effect("help"));
        push_effect(&mut out, info_effect("  insert <plugin>"));
        assert(effects_view(out@) =~= self@.handle_help().effects);
        out
    }

    fn handle_action_show(&self) -> (out: Vec<Effect>)
        ensures
            effects_view(out@) == self@.handle_show().effects,
    {
        let mut out: Vec<Effect> = Vec::new();
        push_effect(&mut out, info_effect("show"));
        push_effect(&mut out, info_effect("  - Plugins:"));
        let ghost head = seq![info("show"@), info("  - Plugins:"@)];
        let ghost names = self@.names();
        assert(effects_view(out@) =~= head + listing(names.take(0)));
        let mut i: usize = 0;
        while i < self.plugins.len()
            invariant
                i <= self.plugins.len(),
                names == self@.names(),
                effects_view(out@) == head + listing(names.take(i as int)),
            decreases self.plugins.len() - i,
        {
            let line = concat3("    - ", self.plugins[i].name.as_str(), "");
            push_effect(&mut out, info_effect(line.as_str()));
            proof {
                assert(names[i as int] == self.plugins@[i as int].name@);
                assert("    - "@ + names[i as int] + ""@ =~= "    - "@ + names[i as int]) by {
                    reveal_strlit("");
                }
                assert(listing(names.take(i + 1)) =~= listing(names.take(i as int)).push(
                    info("    - "@ + names[i as int]),
                ));
                assert(effects_view(out@) =~= head + listing(names.take(i + 1)));
            }
            i += 1;
        }
        assert(names.take(self.plugins.len() as int) == names);
        push_effect(&mut out, info_effect("  - Panels:"));
        let ghost head = head + listing(names) + seq![info("  - Panels:"@)];
        let ghost panels = self@.panels;
        if self.panels.len() == 0 {
            push_effect(&mut out, info_effect("    - <none>"));
            assert(effects_view(out@) =~= self@.handle_show().effects);
            return out;
        }
        assert(effects_view(out@) =~= head + listing(panels.take(0)));
        let mut k: usize = 0;
        while k < self.panels.len()
            invariant
                k <= self.panels.len(),
                panels == self@.panels,
                effects_view(out@) == head + listing(panels.take(k as int)),
            decreases self.panels.len() - k,
        {
            let line = concat3("    - ", self.panels[k].as_str(), "");
            push_effect(&mut out, info_effect(line.as_str()));
            proof {
                assert("    - "@ + panels[k as int] + ""@ =~= "    - "@ + panels[k as int]) by {
                    reveal_strlit("");
                }
                assert(listing(panels.take(k + 1)) =~= listing(panels.take(k as int)).push(
                    info("    - "@ + panels[k as int]),
                ));
                assert(effects_view(out@) =~= head + listing(panels.take(k + 1)));
            }
            k += 1;
        }
        assert(panels.take(self.panels.len() as int) == panels);
        out
    }

    fn handle_action_insert(&self, cmd_parts: &Vec<String>) -> (out: Vec<Effect>)
        ensures
            effects_view(out@) == self@.handle_insert(words_view(cmd_parts@)).effects,
    {
        let mut out: Vec<Effect> = Vec::new();
        push_effect(&mut out, info_effect("insert"));
        if cmd_parts.len() <= 3 {
            push_effect(&mut out, missing_effect("<plugin>", "insert", cmd_parts));
            assert(effects_view(out@) =~= self@.handle_insert(words_view(cmd_parts@)).effects);
            return out;
        }
        let plugin = cmd_parts[3].as_str();
        push_effect(&mut out, info_effect(concat3("  - `", plugin, "`").as_str()));
        match self.can_insert(plugin) {
            Ok(_) => push_effect(&mut out, Effect::Insert { plugin: String::from_str(plugin) }),
            Err(e) => push_effect(&mut out, warn_effect(e.message(plugin).as_str())),
        }
        assert(effects_view(out@) =~= self@.handle_insert(words_view(cmd_parts@)).effects);
        out
    }

    fn handle_action_insert_panel(&mut self, cmd_parts: &Vec<String>) -> (out: Vec<Effect>)
        requires
            old(self).wf(),
        ensures
            final(self).wf(),
            final(self)@ == old(self)@.handle_insert_panel(words_view(cmd_parts@)).state,
            effects_view(out@) == old(self)@.handle_insert_panel(words_view(cmd_parts@)).effects,
    {
        let ghost spec = self@.handle_insert_panel(words_view(cmd_parts@));
        let mut out: Vec<Effect> = Vec::new();
        push_effect(&mut out, info_effect("insert_panel"));
        if cmd_parts.len() <= 3 {
            push_effect(&mut out, missing_effect("<panel>", "insert_panel", cmd_parts));
            assert(effects_view(out@) =~= spec.effects);
            return out;
        }
        let panel = cmd_parts[3].as_str();
        if self.find_panel(panel).is_some() {
            push_effect(
                &mut out,
                warn_effect(concat3("Panel `", panel, "` is already inserted.").as_str()),
            );
            assert(effects_view(out@) =~= spec.effects);
            return out;
        }
        proof {
            lemma_position(self@.panels, panel@);
        }
        push_effect(&mut out, info_effect(concat3("  - `", panel, "`").as_str()));
        self.panels.push(String::from_str(panel));
        push_effect(&mut out, Effect::Redraw);
        proof {
            assert(self@.panels =~= old(self)@.panels.push(panel@));
            assert(self@.plugins =~= old(self)@.plugins);
            assert(effects_view(out@) =~= spec.effects);
        }
        out
    }

    fn handle_action_key_tab(&mut self)
        requires
            old(self).wf(),
        ensures
            final(self).wf(),
            final(self)@ == old(self)@.tab(),
    {
        if self.active_popup.is_some() || self.panels.len() == 0 {
            return ;
        }
        let target = match self.next_stop(self.active_panel + 1, self.panels.len()) {
            Some(i) => Some(i),
            None => self.next_stop(0, self.active_panel + 1),
        };
        match target {
            Some(i) => {
                self.active_panel = i;
                proof {
                    assert(self@.plugins =~= old(self)@.plugins);
                }
            },
            None => {},
        }
    }

    fn handle_action_key(&mut self, cmd_parts: &Vec<String>) -> (out: Vec<Effect>)
        requires
            old(self).wf(),
        ensures
            final(self).wf(),
            final(self)@ == old(self)@.handle_key(words_view(cmd_parts@)).state,
            effects_view(out@) == old(self)@.handle_key(words_view(cmd_parts@)).effects,
    {
        let ghost spec = self@.handle_key(words_view(cmd_parts@));
        let mut out: Vec<Effect> = Vec::new();
        if cmd_parts.len() <= 3 {
            push_effect(&mut out, missing_effect("<key>", "key", cmd_parts));
            assert(effects_view(out@) =~= spec.effects);
            return out;
        }
        let word = cmd_parts[3].as_str();
        match Key::parse(word) {
            None => {
                push_effect(&mut out, invalid_effect("<key>", word, "key", cmd_parts));
            },
            Some(Key::Tab) => {
                self.handle_action_key_tab();
                push_effect(&mut out, Effect::Redraw);
            },
            Some(key) => {
                let target: Option<usize> = match self.active_popup {
                    Some(p) => Some(p),
                    None => if self.active_panel < self.panels.len() {
                        Some(self.active_panel)
                    } else {
                        None
                    },
                };
                match target {
                    Some(i) => {
                        let mut text = String::from_str("p ");
                        text.append(self.panels[i].as_str());
                        text.append(" key ");
                        text.append(key.as_ref());
                        push_effect(&mut out, Effect::cmd(MODULE, text.as_str()));
                    },
                    None => {
                        push_effect(
                            &mut out,
                            warn_effect(concat3("No panel to send key `", word, "` to.").as_str()),
                        );
                    },
                }
            },
        }
        assert(effects_view(out@) =~= spec.effects);
        out
    }

    fn handle_action_popup(&mut self, cmd_parts: &Vec<String>) -> (out: Vec<Effect>)
        requires
            old(self).wf(),
        ensures
            final(self).wf(),
            final(self)@ == old(self)@.handle_popup(words_view(cmd_parts@)).state,
            effects_view(out@) == old(self)@.handle_popup(words_view(cmd_parts@)).effects,
    {
        let ghost spec = self@.handle_popup(words_view(cmd_parts@));
        let mut out: Vec<Effect> = Vec::new();
        push_effect(&mut out, info_effect("popup"));
        if cmd_parts.len() <= 3 {
            self.active_popup = None;
            proof {
                assert(self@.plugins =~= old(self)@.plugins);
            }
        } else {
            let panel = cmd_parts[3].as_str();
            let found: Option<usize> = match self.find_panel(panel) {
                Some(i) => if self.is_popup_at(i) {
                    Some(i)
                } else {
                    None
                },
                None => None,
            };
            match found {
                Some(i) => {
                    self.active_popup = Some(i);
                    proof {
                        assert(self@.plugins =~= old(self)@.plugins);
                    }
                },
                None => {
                    push_effect(
                        &mut out,
                        warn_effect(concat3("Popup panel `", panel, "` not found.").as_str()),
                    );
                },
            }
        }
        push_effect(&mut out, Effect::Redraw);
        assert(effects_view(out@) =~= spec.effects);
        out
    }

    fn my_handle_action(&mut self, action: Action, cmd_parts: &Vec<String>) -> (out: Vec<Effect>)
        requires
            old(self).wf(),
        ensures
            final(self).wf(),
            final(self)@ == old(self)@.my_handle_action(action, words_view(cmd_parts@)).state,
            effects_view(out@) == old(self)@.my_handle_action(
                action,
                words_view(cmd_parts@),
            ).effects,
    {
        match action {
            Action::Help => self.handle_action_help(),
            Action::Show => self.handle_action_show(),
            Action::Insert => self.handle_action_insert(cmd_parts),
            Action::InsertPanel => self.handle_action_insert_panel(cmd_parts),
            Action::Redraw => {
                let mut out: Vec<Effect> = Vec::new();
                push_effect(&mut out, Effect::Redraw);
                assert(effects_view(out@) =~= seq![EffectView::Redraw]);
                out
            },
            Action::Key => self.handle_action_key(cmd_parts),
            Action::Popup => self.handle_action_popup(cmd_parts),
            _ => {
                let mut out: Vec<Effect> = Vec::new();
                push_effect(
                    &mut out,
                    warn_effect(
                        MsgTemplate::UnsupportedAction.format(action.as_ref(), "", "").as_str(),
                    ),
                );
                assert(effects_view(out@) =~= old(self)@.my_handle_action(
                    action,
                    words_view(cmd_parts@),
                ).effects);
                out
            },
        }
    }

    /// Handles the words of one command (see [`PluginsView::dispatch_parts`]).
    pub fn handle_words(&mut self, cmd_parts: Vec<String>) -> (out: Vec<Effect>)
        requires
            old(self).wf(),
        ensures
            final(self).wf(),
            final(self)@ == old(self)@.dispatch_parts(words_view(cmd_parts@)).state,
            effects_view(out@) == old(self)@.dispatch_parts(words_view(cmd_parts@)).effects,
    {
        let ghost spec = self@.dispatch_parts(words_view(cmd_parts@));
        let mut out: Vec<Effect> = Vec::new();
        if cmd_parts.len() < 2 {
            push_effect(&mut out, missing_effect("<plugin_name>", USAGE, &cmd_parts));
            assert(effects_view(out@) =~= spec.effects);
            return out;
        }
        if cmd_parts[1].as_str().eq(MODULE) {
            return match get_action(&cmd_parts) {
                Ok(action) => self.my_handle_action(action, &cmd_parts),
                Err(w) => {
                    push_effect(&mut out, w);
                    assert(effects_view(out@) =~= spec.effects);
                    out
                },
            };
        }
        match self.find_plugin(cmd_parts[1].as_str()) {
            Some(index) => match get_action(&cmd_parts) {
                Ok(action) => {
                    push_effect(&mut out, Effect::Invoke { index, action, cmd_parts });
                },
                Err(w) => {
                    push_effect(&mut out, w);
                },
            },
            None => {
                push_effect(
                    &mut out,
                    invalid_effect("<plugin_name>", cmd_parts[1].as_str(), USAGE, &cmd_parts),
                );
            },
        }
        assert(effects_view(out@) =~= spec.effects);
        out
    }

    /// Handles one command line (see [`PluginsView::dispatch`]).
    pub fn handle_line(&mut self, line: &str) -> (out: Vec<Effect>)
        requires
            old(self).wf(),
        ensures
            final(self).wf(),
            final(self)@ == old(self)@.dispatch(line@).state,
            effects_view(out@) == old(self)@.dispatch(line@).effects,
    {
        match split_words(line) {
            Some(cmd_parts) => self.handle_words(cmd_parts),
            None => {
                let mut out: Vec<Effect> = Vec::new();
                push_effect(
                    &mut out,
                    warn_effect(concat3("Failed to parse cmd `", line, "`.").as_str()),
                );
                assert(effects_view(out@) =~= old(self)@.dispatch(line@).effects);
                out
            },
        }
    }

    /// Handles the command that an envelope carries.
    pub fn handle_cmd(&mut self, msg: &Msg) -> (out: Vec<Effect>)
        requires
            old(self).wf(),
        ensures
            final(self).wf(),
            final(self)@ == old(self)@.dispatch(msg.data.cmd_text()).state,
            effects_view(out@) == old(self)@.dispatch(msg.data.cmd_text()).effects,
    {
        match &msg.data {
            crate::messages::Data::Cmd(c) => self.handle_line(c.cmd.as_str()),
        }
    }

    fn call_for(&self, i: usize, area: Rect, active: bool, wanted: PanelType) -> (out: Option<
        DrawCall,
    >)
        requires
            i < self.panels.len(),
        ensures
            self@.panel_type(i as int) == Some(wanted) ==> out == Some(
                self@.draw_call(i as int, area, active),
            ),
            self@.panel_type(i as int) != Some(wanted) ==> out is None,
    {
        let name = self.panels[i].as_str();
        match self.find_plugin(name) {
            Some(k) => {
                proof {
                    assert(self@.plugins[k as int] == self.plugins@[k as int]@);
                }
                match self.plugins[k].panel {
                    Some(info) => if info.panel_type == wanted {
                        Some(
                            DrawCall {
                                panel: i,
                                plugin: k,
                                area: panel_area(name, &info, area),
                                active,
                            },
                        )
                    } else {
                        None
                    },
                    None => None,
                }
            },
            None => None,
        }
    }

    /// What to draw, first to last, in a terminal that covers `area` (see
    /// [`PluginsView::draw`]).
    pub fn draw(&self, area: Rect) -> (out: Vec<DrawCall>)
        requires
            self.wf(),
        ensures
            out@ == self@.draw(area),
    {
        let mut out: Vec<DrawCall> = Vec::new();
        let mut i: usize = 0;
        while i < self.panels.len()
            invariant
                i <= self.panels.len(),
                out@ == self@.draw_inactive(i as nat, area),
            decreases self.panels.len() - i,
        {
            if i != self.active_panel {
                match self.call_for(i, area, false, PanelType::Normal) {
                    Some(call) => out.push(call),
                    None => {},
                }
            }
            i += 1;
        }
        if self.active_panel < self.panels.len() {
            match self.call_for(self.active_panel, area, true, PanelType::Normal) {
                Some(call) => out.push(call),
                None => {},
            }
        }
        match self.active_popup {
            Some(p) => {
                match self.call_for(p, area, true, PanelType::Popup) {
                    Some(call) => out.push(call),
                    None => {},
                }
            },
            None => {},
        }
        assert(out@ =~= self@.draw(area));
        out
    }
}

/// The parameters of the `gui` command, as warnings quote them.
pub const GUI_PARAMS: &'static str = "<panel_type> <x> <y> <width> <height>";

/// The percentage that a word writes: a whole number from 0 to 100.
pub open spec fn percent_field(s: Seq<char>) -> Option<u16> {
    match parse_unsigned_spec(s, 100) {
        Some(n) => Some(n as u16),
        None => None,
    }
}

/// The panel that the words of a `gui` command describe: its kind is the
/// fourth word, and `x`, `y`, width and height are the four words after
/// it. `None` where the kind is no panel type or a number is no percentage.
pub open spec fn gui_panel(parts: Seq<Seq<char>>) -> Option<PanelInfo>
    recommends
        parts.len() >= 8,
{
    if PanelType::named(parts[3]) is Some && percent_field(parts[4]) is Some && percent_field(
        parts[5],
    ) is Some && percent_field(parts[6]) is Some && percent_field(parts[7]) is Some {
        Some(
            PanelInfo {
                panel_type: PanelType::named(parts[3])->0,
                x: percent_field(parts[4])->0,
                y: percent_field(parts[5])->0,
                w: percent_field(parts[6])->0,
                h: percent_field(parts[7])->0,
            },
        )
    } else {
        None
    }
}

/// The command by which the component `name` asks for its panel to be listed.
pub open spec fn insert_panel_cmd(name: Seq<char>) -> Seq<char> {
    "p plugins insert_panel "@ + name
}

/// What the command `gui <panel_type> <x> <y> <width> <height>` means to the
/// component `name`: its new panel, together with the request to list it;
/// or a warning, where parameters are missing or cannot be read.
pub open spec fn handle_gui(name: Seq<char>, parts: Seq<Seq<char>>) -> Result<
    (PanelInfo, EffectView),
    EffectView,
> {
    if parts.len() < 8 {
        Err(
            log_effect(
                Level::Warn,
                name,
                MsgTemplate::MissingParameters.format_spec(
                    GUI_PARAMS@,
                    "gui"@,
                    join_spec(parts, " "@),
                ),
            ),
        )
    } else {
        match gui_panel(parts) {
            Some(info) => Ok(
                (info, EffectView::Send { origin: name, cmd: insert_panel_cmd(name) }),
            ),
            None => Err(
                log_effect(
                    Level::Warn,
                    name,
                    MsgTemplate::InvalidParameters.format_spec(
                        GUI_PARAMS@,
                        "gui"@,
                        join_spec(parts, " "@),
                    ),
                ),
            ),
        }
    }
}

fn parse_percent(s: &str) -> (out: Option<u16>)
    ensures
        out == percent_field(s@),
{
    match parse_unsigned(s, 100) {
        Some(n) => Some(n as u16),
        None => None,
    }
}

/// Reads the `gui` command of the component `name` (see [`handle_gui`]).
/// On success the caller keeps the panel, reports it to the registry, and
/// sends the request that comes with it.
pub fn handle_action_gui(name: &str, cmd_parts: &Vec<String>) -> (out: Result<
    (PanelInfo, Effect),
    Effect,
>)
    ensures
        out matches Ok(pair) ==> handle_gui(name@, words_view(cmd_parts@)) == Ok::<
            (PanelInfo, EffectView),
            EffectView,
        >((pair.0, pair.1@)),
        out matches Err(w) ==> handle_gui(name@, words_view(cmd_parts@)) == Err::<
            (PanelInfo, EffectView),
            EffectView,
        >(w@),
        out matches Ok(pair) ==> pair.0.in_percent(),
{
    if cmd_parts.len() < 8 {
        let line = join(cmd_parts, " ");
        return Err(
            Effect::warn(
                name,
                MsgTemplate::MissingParameters.format(GUI_PARAMS, "gui", line.as_str()).as_str(),
            ),
        );
    }
    let kind = PanelType::parse(cmd_parts[3].as_str());
    let x = parse_percent(cmd_parts[4].as_str());
    let y = parse_percent(cmd_parts[5].as_str());
    let w = parse_percent(cmd_parts[6].as_str());
    let h = parse_percent(cmd_parts[7].as_str());
    match (kind, x, y, w, h) {
        (Some(panel_type), Some(x), Some(y), Some(w), Some(h)) => {
            let text = concat("p plugins insert_panel ", name);
            Ok((PanelInfo { panel_type, x, y, w, h }, Effect::cmd(name, text.as_str())))
        },
        _ => {
            let line = join(cmd_parts, " ");
            Err(
                Effect::warn(
                    name,
                    MsgTemplate::InvalidParameters.format(
                        GUI_PARAMS,
                        "gui",
                        line.as_str(),
                    ).as_str(),
                ),
            )
        },
    }
}

/// Where a key moves or resizes a panel to. The four move keys change `x` or
/// `y` by one, not below 0; the four resize keys change `w` or `h` by one,
/// `w` not below 10 and `h` not below 3. Nothing grows past the largest
/// `u16`. Any other key changes nothing.
pub open spec fn key_position(key: Key, x: u16, y: u16, w: u16, h: u16) -> (u16, u16, u16, u16) {
    match key {
        Key::AltUp => (x, sub_sat(y, 1), w, h),
        Key::AltDown => (x, add_sat(y, 1), w, h),
        Key::AltLeft => (sub_sat(x, 1), y, w, h),
        Key::AltRight => (add_sat(x, 1), y, w, h),
        Key::AltW => (
            x,
            y,
            w,
            if h > 3 {
                (h - 1) as u16
            } else {
                h
            },
        ),
        Key::AltS => (x, y, w, add_sat(h, 1)),
        Key::AltA => (
            x,
            y,
            if w > 10 {
                (w - 1) as u16
            } else {
                w
            },
            h,
        ),
        Key::AltD => (x, y, add_sat(w, 1), h),
        _ => (x, y, w, h),
    }
}

/// The command that asks the registry to draw.
pub open spec fn redraw_cmd() -> Seq<char> {
    "p plugins redraw"@
}

fn up(n: u16) -> (out: u16)
    ensures
        out == add_sat(n, 1),
{
    if n == u16::MAX {
        n
    } else {
        n + 1
    }
}

fn down(n: u16, floor: u16) -> (out: u16)
    ensures
        out == if n > floor {
            (n - 1) as u16
        } else {
            n
        },
{
    if n > floor {
        n - 1
    } else {
        n
    }
}

/// Moves or resizes the panel of the component `name` by one step for the
/// key `key` (see [`key_position`]), and asks for the panels to be drawn.
pub fn handle_action_key_position(name: &str, key: Key, x: u16, y: u16, w: u16, h: u16) -> (out: (
    (u16, u16, u16, u16),
    Effect,
))
    ensures
        out.0 == key_position(key, x, y, w, h),
        out.1@ == (EffectView::Send { origin: name@, cmd: redraw_cmd() }),
{
    let place = match key {
        Key::AltUp => (x, down(y, 0), w, h),
        Key::AltDown => (x, up(y), w, h),
        Key::AltLeft => (down(x, 0), y, w, h),
        Key::AltRight => (up(x), y, w, h),
        Key::AltW => (x, y, w, down(h, 3)),
        Key::AltS => (x, y, w, up(h)),
        Key::AltA => (x, y, down(w, 10), h),
        Key::AltD => (x, y, up(w), h),
        _ => (x, y, w, h),
    };
    (place, Effect::cmd(name, "p plugins redraw"))
}

/// A panel set by `gui <kind> <x> <y> <w> <h>` is drawn with its top left
/// corner at `x` hundredths of the width and `y` hundredths of the usable
/// height of the terminal, each rounded to the nearest cell.
pub proof fn lemma_gui_round_trip(name: Seq<char>, parts: Seq<Seq<char>>, width: u16, height: u16)
    requires
        parts.len() >= 8,
        gui_panel(parts) is Some,
        name != COMMAND@,
    ensures
        handle_gui(name, parts) is Ok,
        ({
            let info = handle_gui(name, parts)->Ok_0.0;
            let area = Rect { x: 0, y: 0, width, height };
            let drawn = panel_area_spec(name, info, area);
            &&& info.x == parse_unsigned_spec(parts[4], 100)->0
            &&& info.y == parse_unsigned_spec(parts[5], 100)->0
            &&& drawn.x == round_percent(width as int, info.x as int)
            &&& drawn.y == round_percent(usable_height(height) as int, info.y as int)
        }),
{
    let info = gui_panel(parts)->0;
    lemma_percent_of_bounded(width, info.x);
    lemma_percent_of_bounded(usable_height(height), info.y);
}

} // verus!
