//! The envelope that travels on the bus, and the vocabulary of its commands.

use vstd::prelude::*;
use vstd::string::*;
use crate::plugins::plugins_main::{Outcome, Plugins, PluginsView};
use crate::text::{
    chars_of, concat3, is_space, replace_char, replace_char_spec, space, string_of, words_view,
};
use crate::utils::time;

verus! {

/// What a weather update carries.
#[derive(Clone, Copy, Debug, PartialEq, Eq, Structural)]
pub enum WeatherKey {
    Summary,
    Daily,
}

impl WeatherKey {
    /// The word that writes this key in command text.
    pub open spec fn name(self) -> Seq<char> {
        match self {
            WeatherKey::Summary => "summary"@,
            WeatherKey::Daily => "daily"@,
        }
    }

    /// The key that the word `s` writes, if any. The match is exact: case counts.
    pub open spec fn named(s: Seq<char>) -> Option<WeatherKey> {
        if s == "summary"@ {
            Some(WeatherKey::Summary)
        } else if s == "daily"@ {
            Some(WeatherKey::Daily)
        } else {
            None
        }
    }

    /// The word for this key.
    pub fn as_ref(&self) -> (out: &'static str)
        ensures
            out@ == self.name(),
    {
        match self {
            WeatherKey::Summary => "summary",
            WeatherKey::Daily => "daily",
        }
    }

    /// The word for this key, as an owned string.
    pub fn to_string(&self) -> (out: String)
        ensures
            out@ == self.name(),
    {
        String::from_str(self.as_ref())
    }

    /// Reads a key from its word.
    pub fn parse(s: &str) -> (out: Option<WeatherKey>)
        ensures
            out == WeatherKey::named(s@),
    {
        if s.eq("summary") {
            Some(WeatherKey::Summary)
        } else if s.eq("daily") {
            Some(WeatherKey::Daily)
        } else {
            None
        }
    }

    /// Writing a key and reading the word back gives the same key.
    pub proof fn lemma_named_name(x: WeatherKey)
        ensures
            WeatherKey::named(x.name()) == Some(x),
    {
        reveal_strlit("summary");
        reveal_strlit("daily");
        assert("summary"@.len() == 7);
        assert("daily"@.len() == 5);
    }

    /// A word that reads as a key is the word that writes it.
    pub proof fn lemma_name_named(s: Seq<char>)
        requires
            WeatherKey::named(s) is Some,
        ensures
            WeatherKey::named(s)->0.name() == s,
    {
    }
}

/// The page of the info panel that an update is for.
#[derive(Clone, Copy, Debug, PartialEq, Eq, Structural)]
pub enum InfoKey {
    Devices,
    Weather,
}

impl InfoKey {
    /// The word that writes this key in command text.
    pub open spec fn name(self) -> Seq<char> {
        match self {
            InfoKey::Devices => "devices"@,
            InfoKey::Weather => "weather"@,
        }
    }

    /// The key that the word `s` writes, if any. The match is exact: case counts.
    pub open spec fn named(s: Seq<char>) -> Option<InfoKey> {
        if s == "devices"@ {
            Some(InfoKey::Devices)
        } else if s == "weather"@ {
            Some(InfoKey::Weather)
        } else {
            None
        }
    }

    /// The word for this key.
    pub fn as_ref(&self) -> (out: &'static str)
        ensures
            out@ == self.name(),
    {
        match self {
            InfoKey::Devices => "devices",
            InfoKey::Weather => "weather",
        }
    }

    /// The word for this key, as an owned string.
    pub fn to_string(&self) -> (out: String)
        ensures
            out@ == self.name(),
    {
        String::from_str(self.as_ref())
    }

    /// Reads a key from its word.
    pub fn parse(s: &str) -> (out: Option<InfoKey>)
        ensures
            out == InfoKey::named(s@),
    {
        if s.eq("devices") {
            Some(InfoKey::Devices)
        } else if s.eq("weather") {
            Some(InfoKey::Weather)
        } else {
            None
        }
    }

    /// Writing a key and reading the word back gives the same key.
    pub proof fn lemma_named_name(x: InfoKey)
        ensures
            InfoKey::named(x.name()) == Some(x),
    {
        reveal_strlit("devices");
        reveal_strlit("weather");
        assert("devices"@.len() == 7);
        assert("weather"@.len() == 7);
        assert("devices"@[0] == 'd');
        assert("weather"@[0] == 'w');
    }

    /// A word that reads as a key is the word that writes it.
    pub proof fn lemma_name_named(s: Seq<char>)
        requires
            InfoKey::named(s) is Some,
        ensures
            InfoKey::named(s)->0.name() == s,
    {
    }
}

/// The attribute of a device that an update carries.
#[derive(Clone, Copy, Debug, PartialEq, Eq, Structural)]
pub enum DeviceKey {
    Onboard,
    Version,
    TailscaleIp,
    Temperature,
    AppUptime,
}

impl DeviceKey {
    /// The word that writes this key in command text.
    pub open spec fn name(self) -> Seq<char> {
        match self {
            DeviceKey::Onboard => "onboard"@,
            DeviceKey::Version => "version"@,
            DeviceKey::TailscaleIp => "tailscale_ip"@,
            DeviceKey::Temperature => "temperature"@,
            DeviceKey::AppUptime => "app_uptime"@,
        }
    }

    /// The key that the word `s` writes, if any. The match is exact: case counts.
    pub open spec fn named(s: Seq<char>) -> Option<DeviceKey> {
        if s == "onboard"@ {
            Some(DeviceKey::Onboard)
        } else if s == "version"@ {
            Some(DeviceKey::Version)
        } else if s == "tailscale_ip"@ {
            Some(DeviceKey::TailscaleIp)
        } else if s == "temperature"@ {
            Some(DeviceKey::Temperature)
        } else if s == "app_uptime"@ {
            Some(DeviceKey::AppUptime)
        } else {
            None
        }
    }

    /// The word for this key.
    pub fn as_ref(&self) -> (out: &'static str)
        ensures
            out@ == self.name(),
    {
        match self {
            DeviceKey::Onboard => "onboard",
            DeviceKey::Version => "version",
            DeviceKey::TailscaleIp => "tailscale_ip",
            DeviceKey::Temperature => "temperature",
            DeviceKey::AppUptime => "app_uptime",
        }
    }

    /// The word for this key, as an owned string.
    pub fn to_string(&self) -> (out: String)
        ensures
            out@ == self.name(),
    {
        String::from_str(self.as_ref())
    }

    /// Reads a key from its word.
    pub fn parse(s: &str) -> (out: Option<DeviceKey>)
        ensures
            out == DeviceKey::named(s@),
    {
        if s.eq("onboard") {
            Some(DeviceKey::Onboard)
        } else if s.eq("version") {
            Some(DeviceKey::Version)
        } else if s.eq("tailscale_ip") {
            Some(DeviceKey::TailscaleIp)
        } else if s.eq("temperature") {
            Some(DeviceKey::Temperature)
        } else if s.eq("app_uptime") {
            Some(DeviceKey::AppUptime)
        } else {
            None
        }
    }

    /// Writing a key and reading the word back gives the same key.
    pub proof fn lemma_named_name(x: DeviceKey)
        ensures
            DeviceKey::named(x.name()) == Some(x),
    {
        reveal_strlit("onboard");
        reveal_strlit("version");
        reveal_strlit("tailscale_ip");
        reveal_strlit("temperature");
        reveal_strlit("app_uptime");
        assert("onboard"@.len() == 7);
        assert("version"@.len() == 7);
        assert("tailscale_ip"@.len() == 12);
        assert("temperature"@.len() == 11);
        assert("app_uptime"@.len() == 10);
        assert("onboard"@[0] == 'o');
        assert("version"@[0] == 'v');
    }

    /// A word that reads as a key is the word that writes it.
    pub proof fn lemma_name_named(s: Seq<char>)
        requires
            DeviceKey::named(s) is Some,
        ensures
            DeviceKey::named(s)->0.name() == s,
    {
    }
}

/// A key press, as it travels inside command text.
#[derive(Clone, Copy, Debug, PartialEq, Eq, Structural)]
pub enum Key {
    Tab,
    Up,
    Down,
    Left,
    Right,
    AltC,
    AltUp,
    AltDown,
    AltLeft,
    AltRight,
    AltW,
    AltS,
    AltA,
    AltD,
    ControlX,
    ControlS,
    Home,
    End,
}

impl Key {
    /// The word that writes this key in command text.
    pub open spec fn name(self) -> Seq<char> {
        match self {
            Key::Tab => "tab"@,
            Key::Up => "up"@,
            Key::Down => "down"@,
            Key::Left => "left"@,
            Key::Right => "right"@,
            Key::AltC => "alt_c"@,
            Key::AltUp => "alt_up"@,
            Key::AltDown => "alt_down"@,
            Key::AltLeft => "alt_left"@,
            Key::AltRight => "alt_right"@,
            Key::AltW => "alt_w"@,
            Key::AltS => "alt_s"@,
            Key::AltA => "alt_a"@,
            Key::AltD => "alt_d"@,
            Key::ControlX => "ctrl_x"@,
            Key::ControlS => "ctrl_s"@,
            Key::Home => "home"@,
            Key::End => "end"@,
        }
    }

    /// The key that the word `s` writes, if any. The match is exact: case counts.
    pub open spec fn named(s: Seq<char>) -> Option<Key> {
        if s == "tab"@ {
            Some(Key::Tab)
        } else if s == "up"@ {
            Some(Key::Up)
        } else if s == "down"@ {
            Some(Key::Down)
        } else if s == "left"@ {
            Some(Key::Left)
        } else if s == "right"@ {
            Some(Key::Right)
        } else if s == "alt_c"@ {
            Some(Key::AltC)
        } else if s == "alt_up"@ {
            Some(Key::AltUp)
        } else if s == "alt_down"@ {
            Some(Key::AltDown)
        } else if s == "alt_left"@ {
            Some(Key::AltLeft)
        } else if s == "alt_right"@ {
            Some(Key::AltRight)
        } else if s == "alt_w"@ {
            Some(Key::AltW)
        } else if s == "alt_s"@ {
            Some(Key::AltS)
        } else if s == "alt_a"@ {
            Some(Key::AltA)
        } else if s == "alt_d"@ {
            Some(Key::AltD)
        } else if s == "ctrl_x"@ {
            Some(Key::ControlX)
        } else if s == "ctrl_s"@ {
            Some(Key::ControlS)
        } else if s == "home"@ {
            Some(Key::Home)
        } else if s == "end"@ {
            Some(Key::End)
        } else {
            None
        }
    }

    /// The word for this key.
    pub fn as_ref(&self) -> (out: &'static str)
        ensures
            out@ == self.name(),
    {
        match self {
            Key::Tab => "tab",
            Key::Up => "up",
            Key::Down => "down",
            Key::Left => "left",
            Key::Right => "right",
            Key::AltC => "alt_c",
            Key::AltUp => "alt_up",
            Key::AltDown => "alt_down",
            Key::AltLeft => "alt_left",
            Key::AltRight => "alt_right",
            Key::AltW => "alt_w",
            Key::AltS => "alt_s",
            Key::AltA => "alt_a",
            Key::AltD => "alt_d",
            Key::ControlX => "ctrl_x",
            Key::ControlS => "ctrl_s",
            Key::Home => "home",
            Key::End => "end",
        }
    }

    /// The word for this key, as an owned string.
    pub fn to_string(&self) -> (out: String)
        ensures
            out@ == self.name(),
    {
        String::from_str(self.as_ref())
    }

    /// Reads a key from its word.
    pub fn parse(s: &str) -> (out: Option<Key>)
        ensures
            out == Key::named(s@),
    {
        if s.eq("tab") {
            Some(Key::Tab)
        } else if s.eq("up") {
            Some(Key::Up)
        } else if s.eq("down") {
            Some(Key::Down)
        } else if s.eq("left") {
            Some(Key::Left)
        } else if s.eq("right") {
            Some(Key::Right)
        } else if s.eq("alt_c") {
            Some(Key::AltC)
        } else if s.eq("alt_up") {
            Some(Key::AltUp)
        } else if s.eq("alt_down") {
            Some(Key::AltDown)
        } else if s.eq("alt_left") {
            Some(Key::AltLeft)
        } else if s.eq("alt_right") {
            Some(Key::AltRight)
        } else if s.eq("alt_w") {
            Some(Key::AltW)
        } else if s.eq("alt_s") {
            Some(Key::AltS)
        } else if s.eq("alt_a") {
            Some(Key::AltA)
        } else if s.eq("alt_d") {
            Some(Key::AltD)
        } else if s.eq("ctrl_x") {
            Some(Key::ControlX)
        } else if s.eq("ctrl_s") {
            Some(Key::ControlS)
        } else if s.eq("home") {
            Some(Key::Home)
        } else if s.eq("end") {
            Some(Key::End)
        } else {
            None
        }
    }

    /// Writing a key and reading the word back gives the same key.
    pub proof fn lemma_named_name(x: Key)
        ensures
            Key::named(x.name()) == Some(x),
    {
        reveal_strlit("tab");
        reveal_strlit("up");
        reveal_strlit("down");
        reveal_strlit("left");
        reveal_strlit("right");
        reveal_strlit("alt_c");
        reveal_strlit("alt_up");
        reveal_strlit("alt_down");
        reveal_strlit("alt_left");
        reveal_strlit("alt_right");
        reveal_strlit("alt_w");
        reveal_strlit("alt_s");
        reveal_strlit("alt_a");
        reveal_strlit("alt_d");
        reveal_strlit("ctrl_x");
        reveal_strlit("ctrl_s");
        reveal_strlit("home");
        reveal_strlit("end");
        assert("tab"@.len() == 3);
        assert("up"@.len() == 2);
        assert("down"@.len() == 4);
        assert("left"@.len() == 4);
        assert("right"@.len() == 5);
        assert("alt_c"@.len() == 5);
        assert("alt_up"@.len() == 6);
        assert("alt_down"@.len() == 8);
        assert("alt_left"@.len() == 8);
        assert("alt_right"@.len() == 9);
        assert("alt_w"@.len() == 5);
        assert("alt_s"@.len() == 5);
        assert("alt_a"@.len() == 5);
        assert("alt_d"@.len() == 5);
        assert("ctrl_x"@.len() == 6);
        assert("ctrl_s"@.len() == 6);
        assert("home"@.len() == 4);
        assert("end"@.len() == 3);
        assert("tab"@[0] == 't');
        assert("end"@[0] == 'e');
        assert("down"@[0] == 'd');
        assert("left"@[0] == 'l');
        assert("home"@[0] == 'h');
        assert("right"@[4] == 't');
        assert("alt_c"@[4] == 'c');
        assert("alt_w"@[4] == 'w');
        assert("alt_s"@[4] == 's');
        assert("alt_a"@[4] == 'a');
        assert("alt_d"@[4] == 'd');
        assert("alt_up"@[5] == 'p');
        assert("ctrl_x"@[5] == 'x');
        assert("ctrl_s"@[5] == 's');
        assert("alt_down"@[4] == 'd');
        assert("alt_left"@[4] == 'l');
    }

    /// A word that reads as a key is the word that writes it.
    pub proof fn lemma_name_named(s: Seq<char>)
        requires
            Key::named(s) is Some,
        ensures
            Key::named(s)->0.name() == s,
    {
    }
}

/// The verb of a command: which behaviour of a component it asks for.
#[derive(Clone, Copy, Debug, PartialEq, Eq, Structural)]
pub enum Action {
    Log,
    Insert,
    Show,
    Update,
    Download,
    Help,
    Gui,
    OutputUpdate,
    OutputPush,
    Key,
    Restart,
    Disconnected,
    Publish,
    Add,
    Cmd,
    Upload,
    Remove,
    Dest,
    Open,
    Popup,
    InsertPanel,
    Redraw,
    Sync,
    Create,
    SubTitle,
    Ping,
    Wake,
}

impl Action {
    /// The word that writes this action in command text.
    pub open spec fn name(self) -> Seq<char> {
        match self {
            Action::Log => "log"@,
            Action::Insert => "insert"@,
            Action::Show => "show"@,
            Action::Update => "update"@,
            Action::Download => "download"@,
            Action::Help => "help"@,
            Action::Gui => "gui"@,
            Action::OutputUpdate => "output_update"@,
            Action::OutputPush => "output_push"@,
            Action::Key => "key"@,
            Action::Restart => "restart"@,
            Action::Disconnected => "disconnected"@,
            Action::Publish => "publish"@,
            Action::Add => "add"@,
            Action::Cmd => "cmd"@,
            Action::Upload => "upload"@,
            Action::Remove => "remove"@,
            Action::Dest => "dest"@,
            Action::Open => "open"@,
            Action::Popup => "popup"@,
            Action::InsertPanel => "insert_panel"@,
            Action::Redraw => "redraw"@,
            Action::Sync => "sync"@,
            Action::Create => "create"@,
            Action::SubTitle => "sub_title"@,
            Action::Ping => "ping"@,
            Action::Wake => "wake"@,
        }
    }

    /// The action that the word `s` writes, if any. The match is exact: case counts.
    pub open spec fn named(s: Seq<char>) -> Option<Action> {
        if s == "log"@ {
            Some(Action::Log)
        } else if s == "insert"@ {
            Some(Action::Insert)
        } else if s == "show"@ {
            Some(Action::Show)
        } else if s == "update"@ {
            Some(Action::Update)
        } else if s == "download"@ {
            Some(Action::Download)
        } else if s == "help"@ {
            Some(Action::Help)
        } else if s == "gui"@ {
            Some(Action::Gui)
        } else if s == "output_update"@ {
            Some(Action::OutputUpdate)
        } else if s == "output_push"@ {
            Some(Action::OutputPush)
        } else if s == "key"@ {
            Some(Action::Key)
        } else if s == "restart"@ {
            Some(Action::Restart)
        } else if s == "disconnected"@ {
            Some(Action::Disconnected)
        } else if s == "publish"@ {
            Some(Action::Publish)
        } else if s == "add"@ {
            Some(Action::Add)
        } else if s == "cmd"@ {
            Some(Action::Cmd)
        } else if s == "upload"@ {
            Some(Action::Upload)
        } else if s == "remove"@ {
            Some(Action::Remove)
        } else if s == "dest"@ {
            Some(Action::Dest)
        } else if s == "open"@ {
            Some(Action::Open)
        } else if s == "popup"@ {
            Some(Action::Popup)
        } else if s == "insert_panel"@ {
            Some(Action::InsertPanel)
        } else if s == "redraw"@ {
            Some(Action::Redraw)
        } else if s == "sync"@ {
            Some(Action::Sync)
        } else if s == "create"@ {
            Some(Action::Create)
        } else if s == "sub_title"@ {
            Some(Action::SubTitle)
        } else if s == "ping"@ {
            Some(Action::Ping)
        } else if s == "wake"@ {
            Some(Action::Wake)
        } else {
            None
        }
    }

    /// The word for this action.
    pub fn as_ref(&self) -> (out: &'static str)
        ensures
            out@ == self.name(),
    {
        match self {
            Action::Log => "log",
            Action::Insert => "insert",
            Action::Show => "show",
            Action::Update => "update",
            Action::Download => "download",
            Action::Help => "help",
            Action::Gui => "gui",
            Action::OutputUpdate => "output_update",
            Action::OutputPush => "output_push",
            Action::Key => "key",
            Action::Restart => "restart",
            Action::Disconnected => "disconnected",
            Action::Publish => "publish",
            Action::Add => "add",
            Action::Cmd => "cmd",
            Action::Upload => "upload",
            Action::Remove => "remove",
            Action::Dest => "dest",
            Action::Open => "open",
            Action::Popup => "popup",
            Action::InsertPanel => "insert_panel",
            Action::Redraw => "redraw",
            Action::Sync => "sync",
            Action::Create => "create",
            Action::SubTitle => "sub_title",
            Action::Ping => "ping",
            Action::Wake => "wake",
        }
    }

    /// The word for this action, as an owned string.
    pub fn to_string(&self) -> (out: String)
        ensures
            out@ == self.name(),
    {
        String::from_str(self.as_ref())
    }

    /// Reads a action from its word.
    pub fn parse(s: &str) -> (out: Option<Action>)
        ensures
            out == Action::named(s@),
    {
        if s.eq("log") {
            Some(Action::Log)
        } else if s.eq("insert") {
            Some(Action::Insert)
        } else if s.eq("show") {
            Some(Action::Show)
        } else if s.eq("update") {
            Some(Action::Update)
        } else if s.eq("download") {
            Some(Action::Download)
        } else if s.eq("help") {
            Some(Action::Help)
        } else if s.eq("gui") {
            Some(Action::Gui)
        } else if s.eq("output_update") {
            Some(Action::OutputUpdate)
        } else if s.eq("output_push") {
            Some(Action::OutputPush)
        } else if s.eq("key") {
            Some(Action::Key)
        } else if s.eq("restart") {
            Some(Action::Restart)
        } else if s.eq("disconnected") {
            Some(Action::Disconnected)
        } else if s.eq("publish") {
            Some(Action::Publish)
        } else if s.eq("add") {
            Some(Action::Add)
        } else if s.eq("cmd") {
            Some(Action::Cmd)
        } else if s.eq("upload") {
            Some(Action::Upload)
        } else if s.eq("remove") {
            Some(Action::Remove)
        } else if s.eq("dest") {
            Some(Action::Dest)
        } else if s.eq("open") {
            Some(Action::Open)
        } else if s.eq("popup") {
            Some(Action::Popup)
        } else if s.eq("insert_panel") {
            Some(Action::InsertPanel)
        } else if s.eq("redraw") {
            Some(Action::Redraw)
        } else if s.eq("sync") {
            Some(Action::Sync)
        } else if s.eq("create") {
            Some(Action::Create)
        } else if s.eq("sub_title") {
            Some(Action::SubTitle)
        } else if s.eq("ping") {
            Some(Action::Ping)
        } else if s.eq("wake") {
            Some(Action::Wake)
        } else {
            None
        }
    }

    /// Writing a action and reading the word back gives the same action.
    pub proof fn lemma_named_name(x: Action)
        ensures
            Action::named(x.name()) == Some(x),
    {
        reveal_strlit("log");
        reveal_strlit("insert");
        reveal_strlit("show");
        reveal_strlit("update");
        reveal_strlit("download");
        reveal_strlit("help");
        reveal_strlit("gui");
        reveal_strlit("output_update");
        reveal_strlit("output_push");
        reveal_strlit("key");
        reveal_strlit("restart");
        reveal_strlit("disconnected");
        reveal_strlit("publish");
        reveal_strlit("add");
        reveal_strlit("cmd");
        reveal_strlit("upload");
        reveal_strlit("remove");
        reveal_strlit("dest");
        reveal_strlit("open");
        reveal_strlit("popup");
        reveal_strlit("insert_panel");
        reveal_strlit("redraw");
        reveal_strlit("sync");
        reveal_strlit("create");
        reveal_strlit("sub_title");
        reveal_strlit("ping");
        reveal_strlit("wake");
        assert("log"@.len() == 3);
        assert("insert"@.len() == 6);
        assert("show"@.len() == 4);
        assert("update"@.len() == 6);
        assert("download"@.len() == 8);
        assert("help"@.len() == 4);
        assert("gui"@.len() == 3);
        assert("output_update"@.len() == 13);
        assert("output_push"@.len() == 11);
        assert("key"@.len() == 3);
        assert("restart"@.len() == 7);
        assert("disconnected"@.len() == 12);
        assert("publish"@.len() == 7);
        assert("add"@.len() == 3);
        assert("cmd"@.len() == 3);
        assert("upload"@.len() == 6);
        assert("remove"@.len() == 6);
        assert("dest"@.len() == 4);
        assert("open"@.len() == 4);
        assert("popup"@.len() == 5);
        assert("insert_panel"@.len() == 12);
        assert("redraw"@.len() == 6);
        assert("sync"@.len() == 4);
        assert("create"@.len() == 6);
        assert("sub_title"@.len() == 9);
        assert("ping"@.len() == 4);
        assert("wake"@.len() == 4);
        assert("log"@[0] == 'l');
        assert("gui"@[0] == 'g');
        assert("key"@[0] == 'k');
        assert("add"@[0] == 'a');
        assert("cmd"@[0] == 'c');
        assert("show"@[3] == 'w');
        assert("help"@[3] == 'p');
        assert("dest"@[3] == 't');
        assert("open"@[3] == 'n');
        assert("sync"@[3] == 'c');
        assert("ping"@[3] == 'g');
        assert("wake"@[3] == 'e');
        assert("insert"@[0] == 'i');
        assert("insert"@[2] == 's');
        assert("update"@[0] == 'u');
        assert("update"@[2] == 'd');
        assert("upload"@[0] == 'u');
        assert("upload"@[2] == 'l');
        assert("remove"@[0] == 'r');
        assert("remove"@[2] == 'm');
        assert("redraw"@[0] == 'r');
        assert("redraw"@[2] == 'd');
        assert("create"@[0] == 'c');
        assert("create"@[2] == 'e');
        assert("restart"@[0] == 'r');
        assert("publish"@[0] == 'p');
        assert("disconnected"@[0] == 'd');
        assert("insert_panel"@[0] == 'i');
    }

    /// A word that reads as a action is the word that writes it.
    pub proof fn lemma_name_named(s: Seq<char>)
        requires
            Action::named(s) is Some,
        ensures
            Action::named(s)->0.name() == s,
    {
    }
}

/// How serious a log line is.
#[derive(Clone, Copy, Debug, PartialEq, Eq, Structural)]
pub enum Level {
    Error,
    Warn,
    Info,
    Debug,
    Trace,
}

impl Level {
    /// The word that writes this level in command text.
    pub open spec fn name(self) -> Seq<char> {
        match self {
            Level::Error => "ERROR"@,
            Level::Warn => "WARN"@,
            Level::Info => "INFO"@,
            Level::Debug => "DEBUG"@,
            Level::Trace => "TRACE"@,
        }
    }

    /// The level that the word `s` writes, if any. The match is exact: case counts.
    pub open spec fn named(s: Seq<char>) -> Option<Level> {
        if s == "ERROR"@ {
            Some(Level::Error)
        } else if s == "WARN"@ {
            Some(Level::Warn)
        } else if s == "INFO"@ {
            Some(Level::Info)
        } else if s == "DEBUG"@ {
            Some(Level::Debug)
        } else if s == "TRACE"@ {
            Some(Level::Trace)
        } else {
            None
        }
    }

    /// The word for this level.
    pub fn as_ref(&self) -> (out: &'static str)
        ensures
            out@ == self.name(),
    {
        match self {
            Level::Error => "ERROR",
            Level::Warn => "WARN",
            Level::Info => "INFO",
            Level::Debug => "DEBUG",
            Level::Trace => "TRACE",
        }
    }

    /// The word for this level, as an owned string.
    pub fn to_string(&self) -> (out: String)
        ensures
            out@ == self.name(),
    {
        String::from_str(self.as_ref())
    }

    /// Reads a level from its word.
    pub fn parse(s: &str) -> (out: Option<Level>)
        ensures
            out == Level::named(s@),
    {
        if s.eq("ERROR") {
            Some(Level::Error)
        } else if s.eq("WARN") {
            Some(Level::Warn)
        } else if s.eq("INFO") {
            Some(Level::Info)
        } else if s.eq("DEBUG") {
            Some(Level::Debug)
        } else if s.eq("TRACE") {
            Some(Level::Trace)
        } else {
            None
        }
    }

    /// Writing a level and reading the word back gives the same level.
    pub proof fn lemma_named_name(x: Level)
        ensures
            Level::named(x.name()) == Some(x),
    {
        reveal_strlit("ERROR");
        reveal_strlit("WARN");
        reveal_strlit("INFO");
        reveal_strlit("DEBUG");
        reveal_strlit("TRACE");
        assert("ERROR"@.len() == 5);
        assert("WARN"@.len() == 4);
        assert("INFO"@.len() == 4);
        assert("DEBUG"@.len() == 5);
        assert("TRACE"@.len() == 5);
        assert("WARN"@[0] == 'W');
        assert("INFO"@[0] == 'I');
        assert("ERROR"@[0] == 'E');
        assert("DEBUG"@[0] == 'D');
        assert("TRACE"@[0] == 'T');
    }

    /// A word that reads as a level is the word that writes it.
    pub proof fn lemma_name_named(s: Seq<char>)
        requires
            Level::named(s) is Some,
        ensures
            Level::named(s)->0.name() == s,
    {
    }
}

/// A command line.
#[derive(Debug, Clone)]
pub struct Cmd {
    pub cmd: String,
}

impl Cmd {
    /// The command as the log shows it.
    pub open spec fn text_spec(self) -> Seq<char> {
        "[CMD] "@ + self.cmd@
    }

    /// The command as the log shows it.
    pub fn to_string(&self) -> (out: String)
        ensures
            out@ == self.text_spec(),
    {
        let mut out = String::from_str("[CMD] ");
        out.append(self.cmd.as_str());
        out
    }
}

/// What an envelope carries.
#[derive(Debug, Clone)]
pub enum Data {
    Cmd(Cmd),
}

impl Data {
    /// The text of the command that is carried.
    pub open spec fn cmd_text(self) -> Seq<char> {
        match self {
            Data::Cmd(c) => c.cmd@,
        }
    }

    /// The payload as the log shows it.
    pub open spec fn text_spec(self) -> Seq<char> {
        match self {
            Data::Cmd(c) => "Cmd: "@ + c.text_spec(),
        }
    }

    /// The payload as the log shows it.
    pub fn to_string(&self) -> (out: String)
        ensures
            out@ == self.text_spec(),
    {
        match self {
            Data::Cmd(c) => {
                let mut out = String::from_str("Cmd: ");
                out.append(c.to_string().as_str());
                out
            },
        }
    }
}

/// The envelope: a command, who sent it, and when (seconds since the Unix
/// epoch).
#[derive(Debug, Clone)]
pub struct Msg {
    pub ts: u64,
    pub plugin: String,
    pub data: Data,
}

impl Msg {
    /// An envelope from `plugin`, stamped with the time `ts`.
    pub fn at(ts: u64, plugin: &str, data: Data) -> (out: Msg)
        ensures
            out.ts == ts,
            out.plugin@ == plugin@,
            out.data == data,
    {
        Msg { ts, plugin: String::from_str(plugin), data }
    }

    /// An envelope from `plugin`, stamped with the time of the system clock.
    pub fn new(plugin: &str, data: Data) -> (out: Msg)
        ensures
            out.plugin@ == plugin@,
            out.data == data,
    {
        Msg::at(time::ts(), plugin, data)
    }
}

/// What the caller is to do after a command was handled. Effects are performed
/// in the order in which they are returned.
#[derive(Debug)]
pub enum Effect {
    /// Put the command `cmd` on the bus, with `origin` as its sender.
    Send { origin: String, cmd: String },
    /// Draw all panels anew.
    Redraw,
    /// Hand the command to the component at place `index` of the registry:
    /// call its handler with `action` and the words `cmd_parts`.
    Invoke { index: usize, action: Action, cmd_parts: Vec<String> },
    /// Construct the component named `plugin`, then insert it into the
    /// registry.
    Insert { plugin: String },
    /// Tell every task to stop.
    Shutdown,
}

/// An [`Effect`] as a plain value.
pub enum EffectView {
    Send { origin: Seq<char>, cmd: Seq<char> },
    Redraw,
    Invoke { index: nat, action: Action, cmd_parts: Seq<Seq<char>> },
    Insert { plugin: Seq<char> },
    Shutdown,
}

impl View for Effect {
    type V = EffectView;

    open spec fn view(&self) -> EffectView {
        match *self {
            Effect::Send { origin, cmd } => EffectView::Send { origin: origin@, cmd: cmd@ },
            Effect::Redraw => EffectView::Redraw,
            Effect::Invoke { index, action, cmd_parts } => EffectView::Invoke {
                index: index as nat,
                action,
                cmd_parts: words_view(cmd_parts@),
            },
            Effect::Insert { plugin } => EffectView::Insert { plugin: plugin@ },
            Effect::Shutdown => EffectView::Shutdown,
        }
    }
}

/// The views of a sequence of effects.
pub open spec fn effects_view(v: Seq<Effect>) -> Seq<EffectView> {
    Seq::new(v.len(), |i: int| v[i]@)
}

/// The command that asks the log component to log `msg` at `level`:
/// `p log log <LEVEL> '<msg>'`, with every `'` in `msg` turned into `_`, so
/// that the message stays one word.
pub open spec fn log_text_spec(level: Level, msg: Seq<char>) -> Seq<char> {
    "p log log "@ + level.name() + " '"@ + replace_char_spec(msg, '\'', '_') + "'"@
}

/// The effect that logs `msg` at `level` in the name of `origin`.
pub open spec fn log_effect(level: Level, origin: Seq<char>, msg: Seq<char>) -> EffectView {
    EffectView::Send { origin, cmd: log_text_spec(level, msg) }
}

/// Whether an effect is a warning: a log command at level `WARN`.
pub open spec fn is_warning(e: EffectView) -> bool {
    exists|origin: Seq<char>, msg: Seq<char>| e == log_effect(Level::Warn, origin, msg)
}

/// Writes the command that logs `msg` at `level`.
pub fn log_text(level: Level, msg: &str) -> (out: String)
    ensures
        out@ == log_text_spec(level, msg@),
{
    let mut out = String::from_str("p log log ");
    out.append(level.as_ref());
    out.append(" '");
    out.append(replace_char(msg, '\'', '_').as_str());
    out.append("'");
    out
}

impl Effect {
    /// The effect that puts the command `text` on the bus.
    pub fn cmd(module: &str, text: &str) -> (out: Effect)
        ensures
            out@ == (EffectView::Send { origin: module@, cmd: text@ }),
    {
        Effect::Send { origin: String::from_str(module), cmd: String::from_str(text) }
    }

    /// The effect that logs `msg` at `level`.
    pub fn log(level: Level, module: &str, msg: &str) -> (out: Effect)
        ensures
            out@ == log_effect(level, module@, msg@),
    {
        Effect::Send { origin: String::from_str(module), cmd: log_text(level, msg) }
    }

    /// The effect that logs `msg` for information.
    pub fn info(module: &str, msg: &str) -> (out: Effect)
        ensures
            out@ == log_effect(Level::Info, module@, msg@),
    {
        Effect::log(Level::Info, module, msg)
    }

    /// The effect that logs `msg` as a warning.
    pub fn warn(module: &str, msg: &str) -> (out: Effect)
        ensures
            out@ == log_effect(Level::Warn, module@, msg@),
            is_warning(out@),
    {
        Effect::log(Level::Warn, module, msg)
    }

    /// The effect that logs `msg` as an error.
    pub fn error(module: &str, msg: &str) -> (out: Effect)
        ensures
            out@ == log_effect(Level::Error, module@, msg@),
    {
        Effect::log(Level::Error, module, msg)
    }
}

/// Appends an effect to a list of effects.
pub fn push_effect(effects: &mut Vec<Effect>, e: Effect)
    ensures
        effects_view(final(effects)@) == effects_view(old(effects)@).push(e@),
{
    effects.push(e);
    assert(effects_view(effects@) =~= effects_view(old(effects)@).push(e@));
}

/// The list that holds one effect.
pub fn one_effect(e: Effect) -> (out: Vec<Effect>)
    ensures
        effects_view(out@) == seq![e@],
{
    let mut out: Vec<Effect> = Vec::new();
    push_effect(&mut out, e);
    assert(effects_view(out@) =~= seq![e@]);
    out
}

/// The list that holds no effect.
pub fn no_effect() -> (out: Vec<Effect>)
    ensures
        effects_view(out@) == Seq::<EffectView>::empty(),
{
    let out: Vec<Effect> = Vec::new();
    assert(effects_view(out@) =~= Seq::<EffectView>::empty());
    out
}

/// The envelope that carries the command `text` from `module`.
pub fn cmd(module: &str, text: &str) -> (out: Msg)
    ensures
        out.plugin@ == module@,
        out.data.cmd_text() == text@,
{
    Msg::new(module, Data::Cmd(Cmd { cmd: String::from_str(text) }))
}

/// The envelope that logs `msg` at `level` in the name of `module`.
pub fn log(level: Level, module: &str, msg: &str) -> (out: Msg)
    ensures
        out.plugin@ == module@,
        out.data.cmd_text() == log_text_spec(level, msg@),
{
    Msg::new(module, Data::Cmd(Cmd { cmd: log_text(level, msg) }))
}

/// The envelope that logs `msg` for information.
pub fn info(module: &str, msg: &str) -> (out: Msg)
    ensures
        out.plugin@ == module@,
        out.data.cmd_text() == log_text_spec(Level::Info, msg@),
{
    log(Level::Info, module, msg)
}

/// The envelope that logs `msg` as a warning.
pub fn warn(module: &str, msg: &str) -> (out: Msg)
    ensures
        out.plugin@ == module@,
        out.data.cmd_text() == log_text_spec(Level::Warn, msg@),
{
    log(Level::Warn, module, msg)
}

/// The envelope that logs `msg` as an error.
pub fn error(module: &str, msg: &str) -> (out: Msg)
    ensures
        out.plugin@ == module@,
        out.data.cmd_text() == log_text_spec(Level::Error, msg@),
{
    log(Level::Error, module, msg)
}

/// Whether a word ends before `c`: at white space, or where a comment starts.
pub open spec fn ends_word(c: char) -> bool {
    is_space(c) || c == '#'
}

/// The characters of `s` up to the end of its first word.
pub open spec fn word_prefix(s: Seq<char>) -> Seq<char>
    decreases s.len(),
{
    if s.len() == 0 || ends_word(s[0]) {
        Seq::empty()
    } else {
        seq![s[0]] + word_prefix(s.drop_first())
    }
}

/// The first word of a command line: what stands after leading white space,
/// up to the next white space, to the `#` that starts a comment, or to the
/// end. Empty where the line holds no word before its comment.
pub open spec fn command_word(s: Seq<char>) -> Seq<char>
    decreases s.len(),
{
    if s.len() == 0 || s[0] == '#' {
        Seq::empty()
    } else if is_space(s[0]) {
        command_word(s.drop_first())
    } else {
        word_prefix(s)
    }
}

/// The first word of a command line (see [`command_word`]).
pub fn first_word(cmd: &str) -> (out: String)
    ensures
        out@ == command_word(cmd@),
{
    let v = chars_of(cmd);
    let mut i: usize = 0;
    assert(v@.skip(0) == v@);
    while i < v.len() && space(v[i])
        invariant
            i <= v.len(),
            command_word(v@) == command_word(v@.skip(i as int)),
        decreases v.len() - i,
    {
        proof {
            assert(v@.skip(i as int)[0] == v@[i as int]);
            assert(v@.skip(i as int).drop_first() == v@.skip(i + 1));
        }
        i += 1;
    }
    let mut j: usize = i;
    proof {
        if i < v.len() {
            assert(v@.skip(i as int)[0] == v@[i as int]);
        }
        assert(command_word(v@) == word_prefix(v@.skip(i as int)));
        assert(v@.subrange(i as int, i as int) + word_prefix(v@.skip(i as int)) == word_prefix(
            v@.skip(i as int),
        ));
    }
    while j < v.len() && !space(v[j]) && v[j] != '#'
        invariant
            i <= j <= v.len(),
            word_prefix(v@.skip(i as int)) == v@.subrange(i as int, j as int) + word_prefix(
                v@.skip(j as int),
            ),
        decreases v.len() - j,
    {
        proof {
            assert(v@.skip(j as int)[0] == v@[j as int]);
            assert(v@.skip(j as int).drop_first() == v@.skip(j + 1));
            assert(v@.subrange(i as int, j as int) + (seq![v@[j as int]] + word_prefix(
                v@.skip(j + 1),
            )) == v@.subrange(i as int, j + 1) + word_prefix(v@.skip(j + 1)));
        }
        j += 1;
    }
    proof {
        if j < v.len() {
            assert(v@.skip(j as int)[0] == v@[j as int]);
        }
        assert(word_prefix(v@.skip(j as int)) == Seq::<char>::empty());
        assert(v@.subrange(i as int, j as int) + Seq::<char>::empty() == v@.subrange(
            i as int,
            j as int,
        ));
    }
    string_of(&v, i, j)
}

/// Where a command line goes.
#[derive(Debug)]
pub enum Route {
    /// The line holds no word.
    Empty,
    /// To the component registry.
    Plugins,
    /// The process is asked to stop.
    Quit,
    /// Nowhere: the first word, kept here, is no command.
    Unknown(String),
}

/// A [`Route`] as a plain value.
pub enum RouteView {
    Empty,
    Plugins,
    Quit,
    Unknown(Seq<char>),
}

impl View for Route {
    type V = RouteView;

    open spec fn view(&self) -> RouteView {
        match *self {
            Route::Empty => RouteView::Empty,
            Route::Plugins => RouteView::Plugins,
            Route::Quit => RouteView::Quit,
            Route::Unknown(word) => RouteView::Unknown(word@),
        }
    }
}

/// Where the command line `cmd` goes, by its first word: `p` is for the
/// components; `q`, `quit` and `exit` stop the process.
pub open spec fn route_spec(cmd: Seq<char>) -> RouteView {
    let word = command_word(cmd);
    if word.len() == 0 {
        RouteView::Empty
    } else if word == "p"@ {
        RouteView::Plugins
    } else if word == "q"@ || word == "quit"@ || word == "exit"@ {
        RouteView::Quit
    } else {
        RouteView::Unknown(word)
    }
}

/// Decides where a command line goes.
pub fn route(cmd: &str) -> (out: Route)
    ensures
        out@ == route_spec(cmd@),
{
    let word = first_word(cmd);
    if word.as_str().unicode_len() == 0 {
        Route::Empty
    } else if word.as_str().eq("p") {
        Route::Plugins
    } else if word.as_str().eq("q") || word.as_str().eq("quit") || word.as_str().eq("exit") {
        Route::Quit
    } else {
        Route::Unknown(word)
    }
}

/// The name under which the bus itself logs.
pub const MODULE: &'static str = "messages";

/// What becomes of a command line that arrives on the bus. A line for the
/// components goes to the registry, whole; `q`, `quit` and `exit` stop the
/// process; an empty line logs an empty line; any other first word is
/// reported in a warning.
pub open spec fn handle_spec(plugins: PluginsView, cmd: Seq<char>) -> Outcome {
    match route_spec(cmd) {
        RouteView::Empty => plugins.unchanged(seq![log_effect(Level::Info, MODULE@, ""@)]),
        RouteView::Plugins => plugins.dispatch(cmd),
        RouteView::Quit => plugins.unchanged(seq![EffectView::Shutdown]),
        RouteView::Unknown(word) => plugins.unchanged(
            seq![log_effect(Level::Warn, MODULE@, "Unknown command: `"@ + word + "`"@)],
        ),
    }
}

/// Handles one envelope from the bus: decides what is done with its command,
/// and says what the caller is to do (see [`handle_spec`]).
pub fn handle_msg(msg: &Msg, plugins: &mut Plugins) -> (out: Vec<Effect>)
    requires
        old(plugins).wf(),
    ensures
        final(plugins).wf(),
        final(plugins)@ == handle_spec(old(plugins)@, msg.data.cmd_text()).state,
        effects_view(out@) == handle_spec(old(plugins)@, msg.data.cmd_text()).effects,
{
    let line: &str = match &msg.data {
        Data::Cmd(c) => c.cmd.as_str(),
    };
    let mut out: Vec<Effect> = Vec::new();
    match route(line) {
        Route::Plugins => {
            return plugins.handle_cmd(msg);
        },
        Route::Empty => {
            out.push(Effect::info(MODULE, ""));
        },
        Route::Quit => {
            out.push(Effect::Shutdown);
        },
        Route::Unknown(word) => {
            let text = concat3("Unknown command: `", word.as_str(), "`");
            out.push(Effect::warn(MODULE, text.as_str()));
        },
    }
    assert(effects_view(out@) =~= handle_spec(old(plugins)@, msg.data.cmd_text()).effects);
    out
}

/// The line that announces the start of the program `binary_name` in the
/// version `version`.
pub fn starting(module: &str, binary_name: &str, version: &str) -> (out: Msg)
    ensures
        out.plugin@ == module@,
        out.data.cmd_text() == log_text_spec(
            Level::Info,
            "Starting "@ + binary_name@ + " v"@ + version@ + "..."@,
        ),
{
    let mut text = String::from_str("Starting ");
    text.append(binary_name);
    text.append(" v");
    text.append(version);
    text.append("...");
    info(module, text.as_str())
}

} // verus!
