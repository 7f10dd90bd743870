//! Reading the device's JSON replies: the few fields the session logic reads
//! are taken from each frame by JSON pointer, from a fixed list of known
//! response shapes.
use vstd::prelude::*;

verus! {

/// Whether serde_json reads a text as one JSON document.
pub uninterp spec fn json_parses(text: Seq<char>) -> bool;

/// The string at a JSON pointer of a JSON text, if the text parses and the
/// value there is a string.
pub uninterp spec fn json_str_at(text: Seq<char>, pointer: Seq<char>) -> Option<Seq<char>>;

/// The boolean at a JSON pointer of a JSON text, if the value there is one.
pub uninterp spec fn json_bool_at(text: Seq<char>, pointer: Seq<char>) -> Option<bool>;

/// Whether a JSON text holds a value at a JSON pointer.
pub uninterp spec fn json_present_at(text: Seq<char>, pointer: Seq<char>) -> bool;

/// Whether a JSON text holds an object at a JSON pointer.
pub uninterp spec fn json_object_at(text: Seq<char>, pointer: Seq<char>) -> bool;

/// Relies on `serde_json::from_str::<Value>`: whether it reads the text
/// depends on the text alone.
#[verifier::external_body]
fn parses(text: &str) -> (r: bool)
    ensures
        r == json_parses(text@),
{
    serde_json::from_str::<serde_json::Value>(text).is_ok()
}

/// Relies on `serde_json::from_str::<Value>`, `Value::pointer` and
/// `Value::as_str`: the result depends on the two texts alone.
#[verifier::external_body]
fn str_at(text: &str, pointer: &str) -> (r: Option<String>)
    ensures
        opt_chars(r) == json_str_at(text@, pointer@),
{
    match serde_json::from_str::<serde_json::Value>(text) {
        Ok(v) => match v.pointer(pointer) {
            Some(x) => x.as_str().map(String::from),
            None => None,
        },
        Err(_) => None,
    }
}

/// Relies on `serde_json::from_str::<Value>`, `Value::pointer` and
/// `Value::as_bool`: the result depends on the two texts alone.
#[verifier::external_body]
fn bool_at(text: &str, pointer: &str) -> (r: Option<bool>)
    ensures
        r == json_bool_at(text@, pointer@),
{
    match serde_json::from_str::<serde_json::Value>(text) {
        Ok(v) => match v.pointer(pointer) {
            Some(x) => x.as_bool(),
            None => None,
        },
        Err(_) => None,
    }
}

/// Relies on `serde_json::from_str::<Value>` and `Value::pointer`: the
/// result depends on the two texts alone.
#[verifier::external_body]
fn present_at(text: &str, pointer: &str) -> (r: bool)
    ensures
        r == json_present_at(text@, pointer@),
{
    match serde_json::from_str::<serde_json::Value>(text) {
        Ok(v) => v.pointer(pointer).is_some(),
        Err(_) => false,
    }
}

/// Relies on `serde_json::from_str::<Value>`, `Value::pointer` and
/// `Value::is_object`: the result depends on the two texts alone.
#[verifier::external_body]
fn object_at(text: &str, pointer: &str) -> (r: bool)
    ensures
        r == json_object_at(text@, pointer@),
{
    match serde_json::from_str::<serde_json::Value>(text) {
        Ok(v) => match v.pointer(pointer) {
            Some(x) => x.is_object(),
            None => false,
        },
        Err(_) => false,
    }
}

pub open spec fn opt_chars(o: Option<String>) -> Option<Seq<char>> {
    match o {
        Some(s) => Some(s@),
        None => None,
    }
}

/// `r` is what the frame `text` holds at each of the known pointers.
pub open spec fn decoded(text: Seq<char>, r: Reply) -> bool {
    &&& r.text@ == text
    &&& opt_chars(r.kind) == json_str_at(text, "/type"@)
    &&& opt_chars(r.error) == json_str_at(text, "/error"@)
    &&& r.has_error == json_present_at(text, "/error"@)
    &&& opt_chars(r.client_key) == json_str_at(text, "/payload/client-key"@)
    &&& opt_chars(r.socket_path) == json_str_at(text, "/payload/socketPath"@)
    &&& opt_chars(r.wifi_mac) == json_str_at(text, "/payload/wifiInfo/macAddress"@)
    &&& opt_chars(r.wired_mac) == json_str_at(text, "/payload/wiredInfo/macAddress"@)
    &&& opt_chars(r.wifi_state) == json_str_at(text, "/payload/wifi/state"@)
    &&& opt_chars(r.wifi_info_state) == json_str_at(text, "/payload/wifiInfo/state"@)
    &&& opt_chars(r.wired_state) == json_str_at(text, "/payload/wired/state"@)
    &&& r.is_connected == json_bool_at(text, "/payload/isConnected"@)
    &&& opt_chars(r.payload_status) == json_str_at(text, "/payload/status"@)
    &&& opt_chars(r.status) == json_str_at(text, "/status"@)
    &&& r.payload_network_info == json_object_at(text, "/payload/networkInfo"@)
    &&& r.network_info == json_object_at(text, "/networkInfo"@)
}

/// What the session reads of one JSON frame from the device. Each field is
/// the value at one JSON pointer, where it has the expected type.
#[derive(Debug, Clone)]
pub struct Reply {
    /// the frame itself
    pub text: String,
    /// `/type`
    pub kind: Option<String>,
    /// `/error` as a string
    pub error: Option<String>,
    /// whether `/error` is there at all
    pub has_error: bool,
    /// `/payload/client-key`
    pub client_key: Option<String>,
    /// `/payload/socketPath`
    pub socket_path: Option<String>,
    /// `/payload/wifiInfo/macAddress`
    pub wifi_mac: Option<String>,
    /// `/payload/wiredInfo/macAddress`
    pub wired_mac: Option<String>,
    /// `/payload/wifi/state`
    pub wifi_state: Option<String>,
    /// `/payload/wifiInfo/state`
    pub wifi_info_state: Option<String>,
    /// `/payload/wired/state`
    pub wired_state: Option<String>,
    /// `/payload/isConnected`
    pub is_connected: Option<bool>,
    /// `/payload/status`
    pub payload_status: Option<String>,
    /// `/status`
    pub status: Option<String>,
    /// whether `/payload/networkInfo` is an object
    pub payload_network_info: bool,
    /// whether `/networkInfo` is an object
    pub network_info: bool,
}

impl Reply {
    /// Reads a text frame; `None` where it is not JSON.
    pub fn decode(text: &str) -> (r: Option<Reply>)
        ensures
            r is Some == json_parses(text@),
            r matches Some(p) ==> decoded(text@, p),
    {
        if !parses(text) {
            return None;
        }
        Some(
            Reply {
                text: String::from_str(text),
                kind: str_at(text, "/type"),
                error: str_at(text, "/error"),
                has_error: present_at(text, "/error"),
                client_key: str_at(text, "/payload/client-key"),
                socket_path: str_at(text, "/payload/socketPath"),
                wifi_mac: str_at(text, "/payload/wifiInfo/macAddress"),
                wired_mac: str_at(text, "/payload/wiredInfo/macAddress"),
                wifi_state: str_at(text, "/payload/wifi/state"),
                wifi_info_state: str_at(text, "/payload/wifiInfo/state"),
                wired_state: str_at(text, "/payload/wired/state"),
                is_connected: bool_at(text, "/payload/isConnected"),
                payload_status: str_at(text, "/payload/status"),
                status: str_at(text, "/status"),
                payload_network_info: object_at(text, "/payload/networkInfo"),
                network_info: object_at(text, "/networkInfo"),
            },
        )
    }
}

} // verus!
