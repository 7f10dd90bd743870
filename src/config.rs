//! The persisted settings: known televisions, the active one, the optional
//! streaming device and the keyboard shortcuts.
use vstd::prelude::*;
use crate::text::same_text;

verus! {

/// A key combination for one action, and whether it is a global hotkey.
#[derive(Debug, Clone)]
pub struct ActionShortcutConfig {
    pub shortcut: String,
    pub global: bool,
}

impl Default for ActionShortcutConfig {
    fn default() -> (r: Self)
        ensures
            r.shortcut@ == Seq::<char>::empty(),
            !r.global,
    {
        ActionShortcutConfig { shortcut: String::new(), global: false }
    }
}

/// How to reach one television.
#[derive(Debug, Clone)]
pub struct TvConfig {
    pub ip: String,
    pub client_key: Option<String>,
    pub mac: Option<String>,
    pub use_ssl: bool,
}

impl Default for TvConfig {
    fn default() -> (r: Self)
        ensures
            r.ip@ == Seq::<char>::empty(),
            r.client_key.is_none(),
            r.mac.is_none(),
            !r.use_ssl,
    {
        TvConfig { ip: String::new(), client_key: None, mac: None, use_ssl: false }
    }
}

/// A streaming device to wake from standby, and the way to wake it.
#[derive(Debug, Clone)]
pub enum StreamingDeviceConfig {
    /// A magic packet; `broadcast_ip` optionally names a subnet broadcast
    /// address to send it to as well.
    Wol { mac: String, broadcast_ip: Option<String> },
    /// The debug bridge, on `port` or else on its default port.
    Adb { ip: String, port: Option<u16> },
    /// The HTTP control protocol.
    Roku { ip: String },
}

/// The window size, in physical pixels.
#[derive(Debug, Clone, Copy, PartialEq, Eq, Structural)]
pub struct WindowSize {
    pub width: u32,
    pub height: u32,
}

impl Default for WindowSize {
    fn default() -> (r: Self)
        ensures
            r.width == 300 && r.height == 400,
    {
        WindowSize { width: 300, height: 400 }
    }
}

/// All settings. Television names are unique within `tvs` (see `wf`), which
/// keeps the order in which they were first added.
#[derive(Debug, Clone)]
pub struct Config {
    pub tvs: Vec<(String, TvConfig)>,
    pub active_tv: Option<String>,
    pub streaming_device: Option<StreamingDeviceConfig>,
    pub wake_streaming_on_power_on: bool,
    pub global_shortcut: String,
    pub shortcut_enabled: bool,
    pub action_shortcuts: Vec<(String, ActionShortcutConfig)>,
    pub window_size: Option<WindowSize>,
}

/// The names of the entries of a keyed list.
pub open spec fn names<T>(v: Seq<(String, T)>) -> Seq<Seq<char>> {
    v.map_values(|e: (String, T)| e.0@)
}

/// No name occurs twice in a keyed list.
pub open spec fn unique_names<T>(v: Seq<(String, T)>) -> bool {
    forall|i: int, j: int| 0 <= i < j < v.len() ==> v[i].0@ != v[j].0@
}

/// The position of `name` in a keyed list, if it is there.
pub open spec fn position_of<T>(v: Seq<(String, T)>, name: Seq<char>) -> Option<int> {
    if exists|i: int| 0 <= i < v.len() && v[i].0@ == name {
        Some(choose|i: int| 0 <= i < v.len() && v[i].0@ == name)
    } else {
        None
    }
}

/// The index of the active television: the one `active_tv` names, else the
/// first one.
pub open spec fn active_index(c: Config) -> Option<int> {
    match c.active_tv {
        Some(n) => position_of(c.tvs@, n@),
        None => if c.tvs@.len() > 0 {
            Some(0)
        } else {
            None
        },
    }
}

/// Why the settings cannot serve a request.
#[derive(Debug, Clone, Copy, PartialEq, Eq, Structural)]
pub enum ConfigError {
    NoTvConfigured,
    MacNotSaved,
    NoStreamingDevice,
}

impl ConfigError {
    pub fn message(&self) -> (r: String)
        ensures
            r@ == config_error_message(*self),
    {
        match self {
            ConfigError::NoTvConfigured => String::from_str("No TV configured"),
            ConfigError::MacNotSaved => String::from_str(
                "MAC address not saved. Connect to the TV while it's on and click 'Fetch MAC', or set it manually in settings.",
            ),
            ConfigError::NoStreamingDevice => String::from_str(
                "No streaming device configured. Add one in Settings (e.g. Android TV / Shield MAC for Wake-on-LAN, or Roku IP).",
            ),
        }
    }
}

pub open spec fn config_error_message(e: ConfigError) -> Seq<char> {
    match e {
        ConfigError::NoTvConfigured => "No TV configured"@,
        ConfigError::MacNotSaved => "MAC address not saved. Connect to the TV while it's on and click 'Fetch MAC', or set it manually in settings."@,
        ConfigError::NoStreamingDevice => "No streaming device configured. Add one in Settings (e.g. Android TV / Shield MAC for Wake-on-LAN, or Roku IP)."@,
    }
}

/// The default toggle-window shortcut.
pub open spec fn default_shortcut_text() -> Seq<char> {
    "Super+Shift+T"@
}

/// The default action shortcuts: action id, key combination; none global.
pub open spec fn default_action_table() -> Seq<(Seq<char>, Seq<char>)> {
    seq![
        ("up"@, "Up"@),
        ("down"@, "Down"@),
        ("left"@, "Left"@),
        ("right"@, "Right"@),
        ("enter"@, "Return"@),
        ("back"@, "Backspace"@),
        ("volume_up"@, "="@),
        ("volume_down"@, "-"@),
        ("mute"@, "Shift+-"@),
        ("unmute"@, "Shift+="@),
        ("power_on"@, "F7"@),
        ("power_off"@, "F8"@),
        ("wake_streaming_device"@, ""@),
        ("home"@, "Home"@),
    ]
}

/// An action shortcut list read as (id, key combination, global) triples.
pub open spec fn shortcut_table(v: Seq<(String, ActionShortcutConfig)>) -> Seq<(Seq<char>, Seq<char>, bool)> {
    v.map_values(|e: (String, ActionShortcutConfig)| (e.0@, e.1.shortcut@, e.1.global))
}

pub open spec fn default_shortcut_table() -> Seq<(Seq<char>, Seq<char>, bool)> {
    default_action_table().map_values(|e: (Seq<char>, Seq<char>)| (e.0, e.1, false))
}

pub fn default_shortcut() -> (r: String)
    ensures
        r@ == default_shortcut_text(),
{
    String::from_str("Super+Shift+T")
}

fn shortcut_entry(id: &str, shortcut: &str) -> (r: (String, ActionShortcutConfig))
    ensures
        r.0@ == id@,
        r.1.shortcut@ == shortcut@,
        !r.1.global,
{
    (String::from_str(id), ActionShortcutConfig { shortcut: String::from_str(shortcut), global: false })
}

pub fn default_action_shortcuts() -> (r: Vec<(String, ActionShortcutConfig)>)
    ensures
        shortcut_table(r@) == default_shortcut_table(),
{
    let mut m: Vec<(String, ActionShortcutConfig)> = Vec::new();
    m.push(shortcut_entry("up", "Up"));
    m.push(shortcut_entry("down", "Down"));
    m.push(shortcut_entry("left", "Left"));
    m.push(shortcut_entry("right", "Right"));
    m.push(shortcut_entry("enter", "Return"));
    m.push(shortcut_entry("back", "Backspace"));
    m.push(shortcut_entry("volume_up", "="));
    m.push(shortcut_entry("volume_down", "-"));
    m.push(shortcut_entry("mute", "Shift+-"));
    m.push(shortcut_entry("unmute", "Shift+="));
    m.push(shortcut_entry("power_on", "F7"));
    m.push(shortcut_entry("power_off", "F8"));
    m.push(shortcut_entry("wake_streaming_device", ""));
    m.push(shortcut_entry("home", "Home"));
    assert(shortcut_table(m@) =~= default_shortcut_table());
    m
}

impl Default for Config {
    fn default() -> (r: Self)
        ensures
            r.tvs@.len() == 0,
            r.active_tv.is_none(),
            r.streaming_device.is_none(),
            !r.wake_streaming_on_power_on,
            r.global_shortcut@ == default_shortcut_text(),
            !r.shortcut_enabled,
            shortcut_table(r.action_shortcuts@) == default_shortcut_table(),
            r.window_size.is_none(),
            r.wf(),
    {
        Config {
            tvs: Vec::new(),
            active_tv: None,
            streaming_device: None,
            wake_streaming_on_power_on: false,
            global_shortcut: default_shortcut(),
            shortcut_enabled: false,
            action_shortcuts: default_action_shortcuts(),
            window_size: None,
        }
    }
}

fn find<T>(v: &Vec<(String, T)>, name: &str) -> (r: Option<usize>)
    ensures
        match r {
            Some(i) => i < v@.len() && v@[i as int].0@ == name@ && forall|j: int|
                0 <= j < i ==> v@[j].0@ != name@,
            None => forall|j: int| 0 <= j < v@.len() ==> v@[j].0@ != name@,
        },
{
    let mut i: usize = 0;
    while i < v.len()
        invariant
            i <= v@.len(),
            forall|j: int| 0 <= j < i ==> v@[j].0@ != name@,
        decreases v@.len() - i,
    {
        if same_text(v[i].0.as_str(), name) {
            return Some(i);
        }
        i = i + 1;
    }
    None
}

impl Config {
    pub open spec fn wf(&self) -> bool {
        unique_names(self.tvs@)
    }

    /// The active television: the one that `active_tv` names, or the first
    /// one when no television is active.
    pub fn get_active_tv(&self) -> (r: Option<(&String, &TvConfig)>)
        requires
            self.wf(),
        ensures
            match self.active_tv {
                Some(n) => match position_of(self.tvs@, n@) {
                    Some(i) => r == Some((&n, &self.tvs@[i].1)),
                    None => r.is_none(),
                },
                None => if self.tvs@.len() > 0 {
                    r == Some((&self.tvs@[0].0, &self.tvs@[0].1))
                } else {
                    r.is_none()
                },
            },
    {
        match &self.active_tv {
            Some(name) => match find(&self.tvs, name.as_str()) {
                Some(i) => Some((name, &self.tvs[i].1)),
                None => None,
            },
            None => if self.tvs.len() > 0 {
                Some((&self.tvs[0].0, &self.tvs[0].1))
            } else {
                None
            },
        }
    }
    /// Adds a television, or replaces the settings of the one with that
    /// name; the first television added becomes the active one.
    pub fn set_tv(&mut self, name: String, config: TvConfig)
        requires
            old(self).wf(),
        ensures
            final(self).wf(),
            match position_of(old(self).tvs@, name@) {
                Some(i) => final(self).tvs@ == old(self).tvs@.update(i, (old(self).tvs@[i].0, config)),
                None => final(self).tvs@ == old(self).tvs@.push((name, config)),
            },
            final(self).active_tv == (match old(self).active_tv {
                Some(n) => Some(n),
                None => Some(name),
            }),
            final(self).streaming_device == old(self).streaming_device,
            final(self).wake_streaming_on_power_on == old(self).wake_streaming_on_power_on,
            final(self).global_shortcut == old(self).global_shortcut,
            final(self).shortcut_enabled == old(self).shortcut_enabled,
            final(self).action_shortcuts == old(self).action_shortcuts,
            final(self).window_size == old(self).window_size,
    {
        match find(&self.tvs, name.as_str()) {
            Some(i) => {
                let ghost k = self.tvs@[i as int].0;
                proof {
                    assert(position_of(old(self).tvs@, name@) == Some(i as int));
                }
                let (key, _) = self.tvs.remove(i);
                self.tvs.insert(i, (key, config));
                assert(self.tvs@ =~= old(self).tvs@.update(i as int, (k, config)));
            },
            None => {
                if self.active_tv.is_none() {
                    self.active_tv = Some(name.clone());
                }
                self.tvs.push((name, config));
                return;
            },
        }
        if self.active_tv.is_none() {
            self.active_tv = Some(name);
        }
    }

    /// Records the pairing credential of the television `name`, if known.
    pub fn update_client_key(&mut self, name: &str, key: String)
        requires
            old(self).wf(),
        ensures
            final(self).wf(),
            final(self).tvs@.len() == old(self).tvs@.len(),
            forall|i: int|
                0 <= i < old(self).tvs@.len() ==> {
                    let (k, t) = #[trigger] old(self).tvs@[i];
                    final(self).tvs@[i] == if k@ == name@ {
                        (k, TvConfig { client_key: Some(key), ..t })
                    } else {
                        (k, t)
                    }
                },
            final(self).active_tv == old(self).active_tv,
            final(self).streaming_device == old(self).streaming_device,
            final(self).wake_streaming_on_power_on == old(self).wake_streaming_on_power_on,
            final(self).global_shortcut == old(self).global_shortcut,
            final(self).shortcut_enabled == old(self).shortcut_enabled,
            final(self).action_shortcuts == old(self).action_shortcuts,
            final(self).window_size == old(self).window_size,
    {
        if let Some(i) = find(&self.tvs, name) {
            let (k, t) = self.tvs.remove(i);
            let t2 = TvConfig { client_key: Some(key), ..t };
            self.tvs.insert(i, (k, t2));
            assert forall|j: int| 0 <= j < old(self).tvs@.len() && j != i implies old(self).tvs@[j].0@ != name@ by {
                assert(old(self).tvs@[j].0@ != old(self).tvs@[i as int].0@);
            }
        }
    }

    /// Records the hardware address of the television `name`, if known.
    pub fn update_mac(&mut self, name: &str, mac: String)
        requires
            old(self).wf(),
        ensures
            final(self).wf(),
            final(self).tvs@.len() == old(self).tvs@.len(),
            forall|i: int|
                0 <= i < old(self).tvs@.len() ==> {
                    let (k, t) = #[trigger] old(self).tvs@[i];
                    final(self).tvs@[i] == if k@ == name@ {
                        (k, TvConfig { mac: Some(mac), ..t })
                    } else {
                        (k, t)
                    }
                },
            final(self).active_tv == old(self).active_tv,
            final(self).streaming_device == old(self).streaming_device,
            final(self).wake_streaming_on_power_on == old(self).wake_streaming_on_power_on,
            final(self).global_shortcut == old(self).global_shortcut,
            final(self).shortcut_enabled == old(self).shortcut_enabled,
            final(self).action_shortcuts == old(self).action_shortcuts,
            final(self).window_size == old(self).window_size,
    {
        if let Some(i) = find(&self.tvs, name) {
            let (k, t) = self.tvs.remove(i);
            let t2 = TvConfig { mac: Some(mac), ..t };
            self.tvs.insert(i, (k, t2));
            assert forall|j: int| 0 <= j < old(self).tvs@.len() && j != i implies old(self).tvs@[j].0@ != name@ by {
                assert(old(self).tvs@[j].0@ != old(self).tvs@[i as int].0@);
            }
        }
    }

    /// The saved hardware address of the active television, used to wake it.
    pub fn active_tv_mac(&self) -> (r: Result<String, ConfigError>)
        requires
            self.wf(),
        ensures
            match active_index(*self) {
                None => r == Err::<String, ConfigError>(ConfigError::NoTvConfigured),
                Some(i) => match self.tvs@[i].1.mac {
                    Some(m) => r == Ok::<String, ConfigError>(m),
                    None => r == Err::<String, ConfigError>(ConfigError::MacNotSaved),
                },
            },
    {
        match self.get_active_tv() {
            None => Err(ConfigError::NoTvConfigured),
            Some((_, tv)) => match &tv.mac {
                Some(m) => Ok(m.clone()),
                None => Err(ConfigError::MacNotSaved),
            },
        }
    }

    pub fn set_streaming_device(&mut self, device: Option<StreamingDeviceConfig>)
        ensures
            *final(self) == (Config { streaming_device: device, ..*old(self) }),
    {
        self.streaming_device = device;
    }

    /// Makes the television `name` the active one; false, with nothing
    /// changed, where no television has that name.
    pub fn set_active_tv(&mut self, name: String) -> (r: bool)
        ensures
            r == (position_of(old(self).tvs@, name@) is Some),
            *final(self) == if r {
                Config { active_tv: Some(name), ..*old(self) }
            } else {
                *old(self)
            },
    {
        if find(&self.tvs, name.as_str()).is_some() {
            self.active_tv = Some(name);
            true
        } else {
            false
        }
    }
}

} // verus!
