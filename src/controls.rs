//! Remote actions by id, and the rules on keyboard shortcuts.
use vstd::prelude::*;
use crate::config::ActionShortcutConfig;
use crate::text::{lower_of, push_char, same_text, to_lower, trim, trim_of};

verus! {

/// An action that a shortcut or a button of the user interface can run.
#[derive(Debug)]
pub enum RemoteAction {
    /// A navigation button, by the name the input channel knows it.
    Button { name: String },
    VolumeUp,
    VolumeDown,
    SetMute { mute: bool },
    PowerOff,
    /// Wake the television by magic packet.
    PowerOn,
    WakeStreamingDevice,
}

/// The action that an id names.
pub open spec fn action_of(id: Seq<char>) -> Option<(Seq<char>, Option<Seq<char>>)> {
    if id == "up"@ {
        Some(("button"@, Some("UP"@)))
    } else if id == "down"@ {
        Some(("button"@, Some("DOWN"@)))
    } else if id == "left"@ {
        Some(("button"@, Some("LEFT"@)))
    } else if id == "right"@ {
        Some(("button"@, Some("RIGHT"@)))
    } else if id == "enter"@ {
        Some(("button"@, Some("ENTER"@)))
    } else if id == "back"@ {
        Some(("button"@, Some("BACK"@)))
    } else if id == "home"@ {
        Some(("button"@, Some("HOME"@)))
    } else if id == "volume_up"@ {
        Some(("volume_up"@, None))
    } else if id == "volume_down"@ {
        Some(("volume_down"@, None))
    } else if id == "mute"@ {
        Some(("mute"@, None))
    } else if id == "unmute"@ {
        Some(("unmute"@, None))
    } else if id == "power_off"@ {
        Some(("power_off"@, None))
    } else if id == "power_on"@ {
        Some(("power_on"@, None))
    } else if id == "wake_streaming_device"@ {
        Some(("wake_streaming_device"@, None))
    } else {
        None
    }
}

/// An action read as (kind, button name).
pub open spec fn action_view(a: RemoteAction) -> (Seq<char>, Option<Seq<char>>) {
    match a {
        RemoteAction::Button { name } => ("button"@, Some(name@)),
        RemoteAction::VolumeUp => ("volume_up"@, None),
        RemoteAction::VolumeDown => ("volume_down"@, None),
        RemoteAction::SetMute { mute } => if mute {
            ("mute"@, None)
        } else {
            ("unmute"@, None)
        },
        RemoteAction::PowerOff => ("power_off"@, None),
        RemoteAction::PowerOn => ("power_on"@, None),
        RemoteAction::WakeStreamingDevice => ("wake_streaming_device"@, None),
    }
}

fn button(name: &str) -> (r: Option<RemoteAction>)
    ensures
        r matches Some(a) && action_view(a) == ("button"@, Some(name@)),
{
    Some(RemoteAction::Button { name: String::from_str(name) })
}

impl RemoteAction {
    /// The action an id names; `None` for an id that names none.
    pub fn from_id(id: &str) -> (r: Option<RemoteAction>)
        ensures
            match r {
                Some(a) => action_of(id@) == Some(action_view(a)),
                None => action_of(id@) is None,
            },
    {
        if same_text(id, "up") {
            button("UP")
        } else if same_text(id, "down") {
            button("DOWN")
        } else if same_text(id, "left") {
            button("LEFT")
        } else if same_text(id, "right") {
            button("RIGHT")
        } else if same_text(id, "enter") {
            button("ENTER")
        } else if same_text(id, "back") {
            button("BACK")
        } else if same_text(id, "home") {
            button("HOME")
        } else if same_text(id, "volume_up") {
            Some(RemoteAction::VolumeUp)
        } else if same_text(id, "volume_down") {
            Some(RemoteAction::VolumeDown)
        } else if same_text(id, "mute") {
            Some(RemoteAction::SetMute { mute: true })
        } else if same_text(id, "unmute") {
            Some(RemoteAction::SetMute { mute: false })
        } else if same_text(id, "power_off") {
            Some(RemoteAction::PowerOff)
        } else if same_text(id, "power_on") {
            Some(RemoteAction::PowerOn)
        } else if same_text(id, "wake_streaming_device") {
            Some(RemoteAction::WakeStreamingDevice)
        } else {
            None
        }
    }
}

/// The modifier key names, in lower case.
pub open spec fn is_modifier_name(w: Seq<char>) -> bool {
    w == "ctrl"@ || w == "control"@ || w == "alt"@ || w == "shift"@ || w == "super"@ || w
        == "command"@ || w == "meta"@
}

/// The parts of a string between the `+` signs (as `str::split` gives them).
pub open spec fn plus_parts(s: Seq<char>) -> Seq<Seq<char>>
    decreases s.len(),
{
    if s.len() == 0 {
        seq![Seq::<char>::empty()]
    } else {
        let rest = plus_parts(s.drop_last());
        if s.last() == '+' {
            rest.push(Seq::<char>::empty())
        } else {
            rest.update(rest.len() - 1, rest.last().push(s.last()))
        }
    }
}

/// Whether a part names a modifier, ignoring white space around it and case.
pub open spec fn part_is_modifier(p: Seq<char>) -> bool {
    is_modifier_name(lower_of(trim_of(p)))
}

/// A key combination holds a modifier key.
pub open spec fn has_modifier(s: Seq<char>) -> bool {
    exists|i: int| 0 <= i < plus_parts(s).len() && #[trigger] part_is_modifier(plus_parts(s)[i])
}

proof fn lemma_plus_parts_nonempty(s: Seq<char>)
    ensures
        plus_parts(s).len() >= 1,
    decreases s.len(),
{
    if s.len() > 0 {
        lemma_plus_parts_nonempty(s.drop_last());
    }
}

fn names_modifier(part: &str) -> (r: bool)
    ensures
        r == part_is_modifier(part@),
{
    let w = to_lower(trim(part));
    let w = w.as_str();
    same_text(w, "ctrl") || same_text(w, "control") || same_text(w, "alt") || same_text(w, "shift")
        || same_text(w, "super") || same_text(w, "command") || same_text(w, "meta")
}

/// Whether a key combination holds a modifier key (Ctrl, Alt, Shift, Super
/// and their other names), so that a global hotkey does not capture plain
/// typing.
pub fn shortcut_has_modifier(s: &str) -> (r: bool)
    ensures
        r == has_modifier(s@),
{
    let n = s.unicode_len();
    let mut part = String::new();
    let mut found = false;
    let mut i: usize = 0;
    while i < n
        invariant
            n == s@.len(),
            i <= n,
            plus_parts(s@.subrange(0, i as int)).len() >= 1,
            part@ == plus_parts(s@.subrange(0, i as int)).last(),
            found == exists|j: int|
                0 <= j < plus_parts(s@.subrange(0, i as int)).len() - 1
                    && #[trigger] part_is_modifier(plus_parts(s@.subrange(0, i as int))[j]),
        decreases n - i,
    {
        let c = s.get_char(i);
        let ghost prev = plus_parts(s@.subrange(0, i as int));
        assert(s@.subrange(0, i + 1).drop_last() =~= s@.subrange(0, i as int));
        assert(s@.subrange(0, i + 1).last() == c);
        proof {
            lemma_plus_parts_nonempty(s@.subrange(0, i + 1));
        }
        if c == '+' {
            let m = names_modifier(part.as_str());
            let ghost now = plus_parts(s@.subrange(0, i + 1));
            assert(now == prev.push(Seq::<char>::empty()));
            assert(now[prev.len() - 1] == part@);
            assert forall|j: int| 0 <= j < prev.len() - 1 implies now[j] == prev[j] by {}
            if m {
                assert(part_is_modifier(now[prev.len() - 1]));
            }
            found = found || m;
            part = String::new();
        } else {
            push_char(&mut part, c);
            let ghost now = plus_parts(s@.subrange(0, i + 1));
            assert(now == prev.update(prev.len() - 1, prev.last().push(c)));
            assert forall|j: int| 0 <= j < now.len() - 1 implies now[j] == prev[j] by {}
        }
        i = i + 1;
    }
    assert(s@.subrange(0, n as int) =~= s@);
    let last = names_modifier(part.as_str());
    proof {
        let ps = plus_parts(s@);
        if last {
            assert(part_is_modifier(ps[ps.len() - 1]));
        }
        if has_modifier(s@) {
            let j = choose|j: int| 0 <= j < ps.len() && #[trigger] part_is_modifier(ps[j]);
            if j < ps.len() - 1 {
                assert(found);
            } else {
                assert(last);
            }
        }
    }
    found || last
}

/// A shortcut that is blank once white space is removed.
pub open spec fn is_blank(s: Seq<char>) -> bool {
    trim_of(s).len() == 0
}

/// The ids of the global shortcuts that are set but hold no modifier, in
/// list order.
pub open spec fn missing_modifier_ids(v: Seq<(String, ActionShortcutConfig)>) -> Seq<Seq<char>>
    decreases v.len(),
{
    if v.len() == 0 {
        Seq::empty()
    } else {
        let rest = missing_modifier_ids(v.drop_last());
        let (id, sc) = v.last();
        if sc.global && !is_blank(sc.shortcut@) && !has_modifier(sc.shortcut@) {
            rest.push(id@)
        } else {
            rest
        }
    }
}

/// The ids of the global action shortcuts that lack a modifier.
pub fn shortcuts_missing_modifier(v: &Vec<(String, ActionShortcutConfig)>) -> (r: Vec<String>)
    ensures
        r@.map_values(|s: String| s@) == missing_modifier_ids(v@),
{
    let mut r: Vec<String> = Vec::new();
    let mut i: usize = 0;
    while i < v.len()
        invariant
            i <= v@.len(),
            r@.map_values(|s: String| s@) == missing_modifier_ids(v@.subrange(0, i as int)),
        decreases v@.len() - i,
    {
        assert(v@.subrange(0, i + 1).drop_last() =~= v@.subrange(0, i as int));
        let sc = &v[i].1;
        if sc.global && trim(sc.shortcut.as_str()).unicode_len() > 0 && !shortcut_has_modifier(
            sc.shortcut.as_str(),
        ) {
            r.push(v[i].0.clone());
            assert(r@.map_values(|s: String| s@) =~= missing_modifier_ids(v@.subrange(0, i + 1)));
        } else {
            assert(r@.map_values(|s: String| s@) =~= missing_modifier_ids(v@.subrange(0, i + 1)));
        }
        i = i + 1;
    }
    assert(v@.subrange(0, v@.len() as int) =~= v@);
    r
}

/// The inner size of a window from its outer size and the frame the system
/// adds around it (zero where it adds none).
pub fn outer_to_inner_size(outer_w: u32, outer_h: u32, frame_w: u32, frame_h: u32) -> (r: (u32, u32))
    ensures
        r.0 == if outer_w >= frame_w { outer_w - frame_w } else { 0 },
        r.1 == if outer_h >= frame_h { outer_h - frame_h } else { 0 },
{
    (outer_w.saturating_sub(frame_w), outer_h.saturating_sub(frame_h))
}

/// The action shortcuts to register as global hotkeys, as (id, key
/// combination) in list order: those marked global, set, and holding a
/// modifier.
pub open spec fn registered_shortcuts(v: Seq<(String, ActionShortcutConfig)>) -> Seq<(Seq<char>, Seq<char>)>
    decreases v.len(),
{
    if v.len() == 0 {
        Seq::empty()
    } else {
        let rest = registered_shortcuts(v.drop_last());
        let (id, sc) = v.last();
        if sc.global && sc.shortcut@.len() > 0 && has_modifier(sc.shortcut@) {
            rest.push((id@, sc.shortcut@))
        } else {
            rest
        }
    }
}

/// The action shortcuts to register as global hotkeys.
pub fn global_action_shortcuts(v: &Vec<(String, ActionShortcutConfig)>) -> (r: Vec<(String, String)>)
    ensures
        r@.map_values(|e: (String, String)| (e.0@, e.1@)) == registered_shortcuts(v@),
{
    let mut r: Vec<(String, String)> = Vec::new();
    let mut i: usize = 0;
    while i < v.len()
        invariant
            i <= v@.len(),
            r@.map_values(|e: (String, String)| (e.0@, e.1@)) == registered_shortcuts(
                v@.subrange(0, i as int),
            ),
        decreases v@.len() - i,
    {
        assert(v@.subrange(0, i + 1).drop_last() =~= v@.subrange(0, i as int));
        let sc = &v[i].1;
        if sc.global && sc.shortcut.as_str().unicode_len() > 0 && shortcut_has_modifier(
            sc.shortcut.as_str(),
        ) {
            r.push((v[i].0.clone(), sc.shortcut.clone()));
        }
        assert(r@.map_values(|e: (String, String)| (e.0@, e.1@)) =~= registered_shortcuts(
            v@.subrange(0, i + 1),
        ));
        i = i + 1;
    }
    assert(v@.subrange(0, v@.len() as int) =~= v@);
    r
}

/// Where the window goes, horizontally, for a click at `x`: centred on the
/// click, then moved left to end at the monitor's right edge, then right to
/// start no further left than the monitor.
pub open spec fn near_click_x(x: int, w: int, mon_x: int, mon_w: int) -> int {
    let p = x - w / 2;
    let right = mon_x + mon_w;
    let p = if p + w > right {
        right - w
    } else {
        p
    };
    if p < mon_x {
        mon_x
    } else {
        p
    }
}

/// Where the window goes, vertically, for a click at `y`: below the click,
/// or above it where it would pass the monitor's bottom edge, and never above
/// the monitor's top.
pub open spec fn near_click_y(y: int, h: int, mon_y: int, mon_h: int) -> int {
    let bottom = mon_y + mon_h;
    let p = if y + h > bottom {
        y - h
    } else {
        y
    };
    if p < mon_y {
        mon_y
    } else {
        p
    }
}

/// The position of a window of `win_w` by `win_h` shown for a click on the
/// tray icon at (`click_x`, `click_y`), kept on the monitor at (`mon_x`,
/// `mon_y`) of `mon_w` by `mon_h`. All in physical pixels.
pub fn window_position_near(
    click_x: i32,
    click_y: i32,
    win_w: u32,
    win_h: u32,
    mon_x: i32,
    mon_y: i32,
    mon_w: u32,
    mon_h: u32,
) -> (r: (i32, i32))
    requires
        win_w <= i32::MAX,
        win_h <= i32::MAX,
        mon_x + mon_w <= i32::MAX,
        mon_y + mon_h <= i32::MAX,
    ensures
        r.0 == near_click_x(click_x as int, win_w as int, mon_x as int, mon_w as int),
        r.1 == near_click_y(click_y as int, win_h as int, mon_y as int, mon_h as int),
{
    let w = win_w as i64;
    let h = win_h as i64;
    let right = mon_x as i64 + mon_w as i64;
    let mut px = click_x as i64 - w / 2;
    if px + w > right {
        px = right - w;
    }
    if px < mon_x as i64 {
        px = mon_x as i64;
    }
    let bottom = mon_y as i64 + mon_h as i64;
    let mut py = click_y as i64;
    if py + h > bottom {
        py = click_y as i64 - h;
    }
    if py < mon_y as i64 {
        py = mon_y as i64;
    }
    (px as i32, py as i32)
}

} // verus!
