//! The wire formats: the registration and request envelopes of the command
//! channel, the button frames of the input channel, and what a reply means.
use vstd::prelude::*;
use crate::json::Reply;
use crate::text::{
    concat, decimal, json_quoted, push_decimal, quote_json, same_text, to_upper, upper_of,
};

verus! {

pub const VOLUME_UP: &'static str = "ssap://audio/volumeUp";

pub const VOLUME_DOWN: &'static str = "ssap://audio/volumeDown";

pub const SET_MUTE: &'static str = "ssap://audio/setMute";

pub const TURN_OFF: &'static str = "ssap://system/turnOff";

/// Network information; also the keepalive's no-op request.
pub const GET_INFO: &'static str = "ssap://com.webos.service.connectionmanager/getinfo";

pub const INPUT_SOCKET: &'static str = "ssap://com.webos.service.networkinput/getPointerInputSocket";

/// The connection status endpoints, in the order in which they are tried.
pub const STATUS_PRIMARY: &'static str = "ssap://com.webos.service.connectionmanager/getStatus";

pub const STATUS_WIFI: &'static str = "ssap://com.webos.service.wifi/getstatus";

pub const STATUS_PALM: &'static str = "ssap://com.palm.wifi/getStatus";

/// The start of the registration envelope, up to the optional credential.
pub const REGISTER_HEAD: &'static str = "{\"type\":\"register\",\"id\":\"register_0\",\"payload\":{\"forcePairing\":false,\"pairingType\":\"PROMPT\",";

/// The fixed capability manifest sent with every registration.
pub const MANIFEST: &'static str = "{\"manifestVersion\":1,\"appVersion\":\"1.1\",\"signed\":{\"created\":\"20140509\",\"appId\":\"com.lge.test\",\"vendorId\":\"com.lge\",\"localizedAppNames\":{\"\":\"LG Remote\"},\"localizedVendorNames\":{\"\":\"LG Electronics\"},\"permissions\":[\"LAUNCH\",\"LAUNCH_WEBAPP\",\"APP_TO_APP\",\"CLOSE\",\"TEST_OPEN\",\"TEST_PROTECTED\",\"CONTROL_AUDIO\",\"CONTROL_DISPLAY\",\"CONTROL_INPUT_JOYSTICK\",\"CONTROL_INPUT_MEDIA_RECORDING\",\"CONTROL_INPUT_MEDIA_PLAYBACK\",\"CONTROL_INPUT_TV\",\"CONTROL_POWER\",\"READ_APP_STATUS\",\"READ_CURRENT_CHANNEL\",\"READ_INPUT_DEVICE_LIST\",\"READ_NETWORK_STATE\",\"READ_RUNNING_APPS\",\"READ_TV_CHANNEL_LIST\",\"WRITE_NOTIFICATION_TOAST\",\"READ_POWER_STATE\",\"READ_COUNTRY_INFO\",\"CONTROL_MOUSE_AND_KEYBOARD\",\"CONTROL_INPUT_TEXT\"],\"serial\":\"2f930e2d2cfe083771f68e4fe7bb07\"},\"permissions\":[\"LAUNCH\",\"LAUNCH_WEBAPP\",\"APP_TO_APP\",\"CLOSE\",\"TEST_OPEN\",\"TEST_PROTECTED\",\"CONTROL_AUDIO\",\"CONTROL_DISPLAY\",\"CONTROL_INPUT_JOYSTICK\",\"CONTROL_INPUT_MEDIA_RECORDING\",\"CONTROL_INPUT_MEDIA_PLAYBACK\",\"CONTROL_INPUT_TV\",\"CONTROL_POWER\",\"READ_APP_STATUS\",\"READ_CURRENT_CHANNEL\",\"READ_INPUT_DEVICE_LIST\",\"READ_NETWORK_STATE\",\"READ_RUNNING_APPS\",\"READ_TV_CHANNEL_LIST\",\"WRITE_NOTIFICATION_TOAST\",\"READ_POWER_STATE\",\"READ_COUNTRY_INFO\",\"CONTROL_MOUSE_AND_KEYBOARD\",\"CONTROL_INPUT_TEXT\"],\"signatures\":[{\"signatureVersion\":1,\"signature\":\"eyJhbGdvcml0aG0iOiJSU0EtU0hBMjU2Iiwia2V5SWQiOiJ0ZXN0LXNpZ25pbmctY2VydCIsInNpZ25hdHVyZVZlcnNpb24iOjF9.hrVRgjCwXVvE2OOSpDZ58hR+59aFNwYDyjQgKk3auukd7pcegmE2CzPCa0bJ0ZsRAcKkCTJrWo5iDzNhMBWRyaMOv5zWSrthlf7G128qvIlpMT0YNY+n/FaOHE73uLrS/g7swl3/qH/BGFG2Hu4RlL48eb3lLKqTt2xKHdCs6Cd4RMfJPYnzgvI4BNrFUKsjkcu+WD4OO2A27Pq1n50cMchmcaXadJhGrOqH5YmHdOCj5NSHzJYrsW0HPlpuAx/ECMeIZYDh6RMqaFM2DXzdKX9NmmyqzJ3o/0lkk/N97gfVRLW5hA29yeAwaCViZNCP8iC9aO0q9fQojoa7NQnAtw==\"}]}";

/// The uniform result of an operation.
#[derive(Debug, Clone)]
pub struct CommandResult {
    pub success: bool,
    pub message: Option<String>,
    pub error: Option<String>,
    pub client_key: Option<String>,
    pub mac: Option<String>,
    /// The reply frame of a request whose reply is handed back, as JSON text.
    pub payload: Option<String>,
}

/// The plain success result: nothing but `success`.
pub open spec fn plain_ok(r: CommandResult) -> bool {
    r.success && r.message is None && r.error is None && r.client_key is None && r.mac is None
        && r.payload is None
}

impl CommandResult {
    pub fn ok() -> (r: Self)
        ensures
            plain_ok(r),
    {
        CommandResult {
            success: true,
            message: None,
            error: None,
            client_key: None,
            mac: None,
            payload: None,
        }
    }

    pub fn ok_with_message(msg: &str) -> (r: Self)
        ensures
            r.success,
            r.message matches Some(m) && m@ == msg@,
            r.error.is_none(),
            r.client_key.is_none(),
            r.mac.is_none(),
            r.payload.is_none(),
    {
        CommandResult {
            success: true,
            message: Some(String::from_str(msg)),
            error: None,
            client_key: None,
            mac: None,
            payload: None,
        }
    }
}

/// The address of the command channel: `wss://ip:3001` with transport
/// security, `ws://ip:3000` without.
pub open spec fn command_uri_of(ip: Seq<char>, use_ssl: bool) -> Seq<char> {
    if use_ssl {
        "wss://"@ + ip + ":3001"@
    } else {
        "ws://"@ + ip + ":3000"@
    }
}

pub fn command_uri(ip: &str, use_ssl: bool) -> (r: String)
    ensures
        r@ == command_uri_of(ip@, use_ssl),
{
    let mut r = if use_ssl {
        concat("wss://", ip)
    } else {
        concat("ws://", ip)
    };
    if use_ssl {
        r.append(":3001");
    } else {
        r.append(":3000");
    }
    r
}

/// The registration envelope, with the credential in its payload where one
/// is given.
pub open spec fn handshake_of(credential: Option<Seq<char>>) -> Seq<char> {
    REGISTER_HEAD@ + match credential {
        Some(k) => "\"client-key\":"@ + json_quoted(k) + ","@,
        None => Seq::<char>::empty(),
    } + "\"manifest\":"@ + MANIFEST@ + "}}"@
}

pub fn handshake_payload(client_key: Option<&str>) -> (r: String)
    ensures
        r@ == handshake_of(
            match client_key {
                Some(k) => Some(k@),
                None => None,
            },
        ),
{
    let mut r = String::from_str(REGISTER_HEAD);
    if let Some(k) = client_key {
        r.append("\"client-key\":");
        let q = quote_json(k);
        r.append(q.as_str());
        r.append(",");
    }
    r.append("\"manifest\":");
    r.append(MANIFEST);
    r.append("}}");
    r
}

/// A request envelope: the request id is `cmd_` and the number.
pub open spec fn request_of(id: nat, uri: Seq<char>, payload: Seq<char>) -> Seq<char> {
    "{\"type\":\"request\",\"id\":\"cmd_"@ + decimal(id) + "\",\"uri\":"@ + json_quoted(uri)
        + ",\"payload\":"@ + payload + "}"@
}

pub fn request_envelope(id: u64, uri: &str, payload: &str) -> (r: String)
    ensures
        r@ == request_of(id as nat, uri@, payload@),
{
    let mut r = String::from_str("{\"type\":\"request\",\"id\":\"cmd_");
    push_decimal(&mut r, id);
    r.append("\",\"uri\":");
    let q = quote_json(uri);
    r.append(q.as_str());
    r.append(",\"payload\":");
    r.append(payload);
    r.append("}");
    r
}

/// The payload of a mute request.
pub open spec fn mute_payload_of(mute: bool) -> Seq<char> {
    if mute {
        "{\"mute\":true}"@
    } else {
        "{\"mute\":false}"@
    }
}

/// The input-channel frame for a button, its name in upper case.
pub open spec fn button_frame_of(name: Seq<char>) -> Seq<char> {
    "type:button\nname:"@ + upper_of(name) + "\n\n"@
}

pub fn button_frame(name: &str) -> (r: String)
    ensures
        r@ == button_frame_of(name@),
{
    let mut r = String::from_str("type:button\nname:");
    let u = to_upper(name);
    r.append(u.as_str());
    r.append("\n\n");
    r
}

pub open spec fn text_is(o: Option<String>, t: Seq<char>) -> bool {
    o matches Some(s) && s@ == t
}

fn text_equals(o: &Option<String>, t: &str) -> (r: bool)
    ensures
        r == text_is(*o, t@),
{
    match o {
        Some(s) => same_text(s.as_str(), t),
        None => false,
    }
}

/// What a frame received while registering means.
#[derive(Debug)]
pub enum Registration {
    /// Neither `registered` nor `error`: a prompt or another notice; keep waiting.
    Pending,
    Registered { client_key: Option<String> },
    Rejected { reason: String },
}

/// The reason of a rejection: the device's error text, else `Unknown`.
pub open spec fn rejection_reason(r: Reply) -> Seq<char> {
    match r.error {
        Some(e) => e@,
        None => "Unknown"@,
    }
}

pub fn classify_registration(reply: Reply) -> (r: Registration)
    ensures
        text_is(reply.kind, "registered"@) ==> r == (Registration::Registered {
            client_key: reply.client_key,
        }),
        !text_is(reply.kind, "registered"@) && text_is(reply.kind, "error"@) ==> (r matches Registration::Rejected { reason } && reason@ == rejection_reason(reply)),
        !text_is(reply.kind, "registered"@) && !text_is(reply.kind, "error"@) ==> r is Pending,
{
    if text_equals(&reply.kind, "registered") {
        Registration::Registered { client_key: reply.client_key }
    } else if text_equals(&reply.kind, "error") {
        match reply.error {
            Some(e) => Registration::Rejected { reason: e },
            None => Registration::Rejected { reason: String::from_str("Unknown") },
        }
    } else {
        Registration::Pending
    }
}

/// The status reply reports the wireless interface as connected, in any of
/// the shapes that firmware versions use.
pub open spec fn wifi_link_up(r: Reply) -> bool {
    text_is(r.wifi_state, "connected"@) || text_is(r.wifi_info_state, "connected"@)
        || r.is_connected == Some(true) || text_is(r.payload_status, "connectionStateChanged"@)
        || text_is(r.status, "connectionStateChanged"@) || r.payload_network_info
        || r.network_info
}

/// The status reply reports the wired interface as connected.
pub open spec fn wired_link_up(r: Reply) -> bool {
    text_is(r.wired_state, "connected"@)
}

pub open spec fn first_of(a: Option<String>, b: Option<String>) -> Option<String> {
    if a is Some {
        a
    } else {
        b
    }
}

/// The address of the connected interface: wired if it is up and known,
/// else wireless if it is up and known, else whichever is known, wireless
/// first.
pub open spec fn chosen_mac(
    wifi: Option<String>,
    wired: Option<String>,
    status: Option<Reply>,
) -> Option<String> {
    match status {
        Some(st) => if wired_link_up(st) && wired is Some {
            wired
        } else if wifi_link_up(st) && wifi is Some {
            wifi
        } else {
            first_of(wifi, wired)
        },
        None => first_of(wifi, wired),
    }
}

fn link_up_wifi(r: &Reply) -> (b: bool)
    ensures
        b == wifi_link_up(*r),
{
    text_equals(&r.wifi_state, "connected") || text_equals(&r.wifi_info_state, "connected")
        || r.is_connected == Some(true) || text_equals(&r.payload_status, "connectionStateChanged")
        || text_equals(&r.status, "connectionStateChanged") || r.payload_network_info
        || r.network_info
}

pub fn select_mac(wifi: Option<String>, wired: Option<String>, status: Option<&Reply>) -> (r:
    Option<String>)
    ensures
        r == chosen_mac(
            wifi,
            wired,
            match status {
                Some(s) => Some(*s),
                None => None,
            },
        ),
{
    match status {
        Some(st) => {
            if text_equals(&st.wired_state, "connected") && wired.is_some() {
                wired
            } else if link_up_wifi(st) && wifi.is_some() {
                wifi
            } else if wifi.is_some() {
                wifi
            } else {
                wired
            }
        },
        None => if wifi.is_some() {
            wifi
        } else {
            wired
        },
    }
}

} // verus!
