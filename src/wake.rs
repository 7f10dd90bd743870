//! Wake mechanisms: the magic packet, the debug-bridge commands and the HTTP
//! control request, built here and sent by the caller.
use vstd::prelude::*;
use crate::config::StreamingDeviceConfig;
use crate::text::{concat, decimal, push_char, push_decimal, trim, trim_of};

verus! {

/// Port of the HTTP control protocol.
pub const HTTP_CONTROL_PORT: u64 = 8060;

/// Port of the debug bridge when the device entry names none.
pub const DEFAULT_DEBUG_BRIDGE_PORT: u16 = 5555;

/// Why a wake request could not be built.
#[derive(Debug, Clone, Copy, PartialEq, Eq, Structural)]
pub enum WakeError {
    /// The address holds a character that is not a hex digit or a separator,
    /// or an odd number of hex digits.
    InvalidMac,
    /// The address is hex, but not six bytes long.
    InvalidMacLength,
}

impl WakeError {
    pub fn message(&self) -> (r: String)
        ensures
            r@ == wake_error_message(*self),
    {
        match self {
            WakeError::InvalidMac => String::from_str("Invalid MAC address"),
            WakeError::InvalidMacLength => String::from_str("Invalid MAC address length"),
        }
    }
}

pub open spec fn wake_error_message(e: WakeError) -> Seq<char> {
    match e {
        WakeError::InvalidMac => "Invalid MAC address"@,
        WakeError::InvalidMacLength => "Invalid MAC address length"@,
    }
}

pub open spec fn is_hex_digit(c: char) -> bool {
    (0x30 <= c as u32 && c as u32 <= 0x39) || (0x41 <= c as u32 && c as u32 <= 0x46) || (0x61
        <= c as u32 && c as u32 <= 0x66)
}

/// The value of a hex digit.
pub open spec fn hex_value(c: char) -> nat {
    if 0x30 <= c as u32 && c as u32 <= 0x39 {
        (c as u32 - 0x30) as nat
    } else if 0x41 <= c as u32 && c as u32 <= 0x46 {
        (c as u32 - 0x41 + 10) as nat
    } else {
        (c as u32 - 0x61 + 10) as nat
    }
}

pub open spec fn all_hex(s: Seq<char>) -> bool {
    forall|i: int| 0 <= i < s.len() ==> #[trigger] is_hex_digit(s[i])
}

/// A string that reads as bytes: an even number of hex digits.
pub open spec fn hex_decodable(s: Seq<char>) -> bool {
    s.len() % 2 == 0 && all_hex(s)
}

/// The byte written by the two hex digits at `2 * i`.
pub open spec fn hex_byte(s: Seq<char>, i: int) -> u8 {
    (hex_value(s[2 * i]) * 16 + hex_value(s[2 * i + 1])) as u8
}

/// The bytes that a string of hex digit pairs writes.
pub open spec fn hex_bytes(s: Seq<char>) -> Seq<u8> {
    Seq::new(s.len() / 2, |i: int| hex_byte(s, i))
}

/// The separators that may stand between the digits of a hardware address.
pub open spec fn is_separator(c: char, spaces: bool) -> bool {
    c == ':' || c == '-' || (spaces && c == ' ')
}

/// The string with every separator removed.
pub open spec fn strip_separators(s: Seq<char>, spaces: bool) -> Seq<char>
    decreases s.len(),
{
    if s.len() == 0 {
        s
    } else {
        let init = strip_separators(s.drop_last(), spaces);
        if is_separator(s.last(), spaces) {
            init
        } else {
            init.push(s.last())
        }
    }
}

/// A hardware address as written by a user: twelve hex digits, with or
/// without `:` and `-` between them.
pub open spec fn valid_mac(s: Seq<char>) -> bool {
    let d = strip_separators(s, false);
    hex_decodable(d) && d.len() == 12
}

/// The six bytes of a valid hardware address.
pub open spec fn mac_bytes(s: Seq<char>) -> Seq<u8> {
    hex_bytes(strip_separators(s, false))
}

/// The standard wake packet: six `0xFF` bytes, then the six address bytes
/// sixteen times over.
pub open spec fn magic_packet_of(mac: Seq<u8>) -> Seq<u8> {
    Seq::new(102, |i: int| if i < 6 { 0xFFu8 } else { mac[(i - 6) % 6] })
}

fn hex_digit_value(c: char) -> (r: Option<u8>)
    ensures
        r.is_some() == is_hex_digit(c),
        r.is_some() ==> r.unwrap() as nat == hex_value(c) && r.unwrap() < 16,
{
    let v = c as u32;
    if 0x30 <= v && v <= 0x39 {
        Some((v - 0x30) as u8)
    } else if 0x41 <= v && v <= 0x46 {
        Some((v - 0x41 + 10) as u8)
    } else if 0x61 <= v && v <= 0x66 {
        Some((v - 0x61 + 10) as u8)
    } else {
        None
    }
}

/// The characters of a string, in order.
pub fn chars_of(s: &str) -> (r: Vec<char>)
    ensures
        r@ == s@,
{
    let n = s.unicode_len();
    let mut r: Vec<char> = Vec::new();
    let mut i: usize = 0;
    while i < n
        invariant
            n == s@.len(),
            i <= n,
            r@ == s@.subrange(0, i as int),
        decreases n - i,
    {
        r.push(s.get_char(i));
        i = i + 1;
        assert(r@ =~= s@.subrange(0, i as int));
    }
    assert(r@ =~= s@);
    r
}

/// The characters of a string without its separators.
pub fn strip(s: &str, spaces: bool) -> (r: Vec<char>)
    ensures
        r@ == strip_separators(s@, spaces),
{
    let n = s.unicode_len();
    let mut r: Vec<char> = Vec::new();
    let mut i: usize = 0;
    while i < n
        invariant
            n == s@.len(),
            i <= n,
            r@ == strip_separators(s@.subrange(0, i as int), spaces),
        decreases n - i,
    {
        let c = s.get_char(i);
        assert(s@.subrange(0, i + 1).drop_last() =~= s@.subrange(0, i as int));
        if !(c == ':' || c == '-' || (spaces && c == ' ')) {
            r.push(c);
        }
        i = i + 1;
    }
    assert(s@.subrange(0, n as int) =~= s@);
    r
}

/// Reads hex digit pairs as bytes.
pub fn decode_digits(s: &Vec<char>) -> (r: Result<Vec<u8>, ()>)
    ensures
        match r {
            Ok(v) => hex_decodable(s@) && v@ == hex_bytes(s@),
            Err(_) => !hex_decodable(s@),
        },
{
    if s.len() % 2 != 0 {
        return Err(());
    }
    let mut out: Vec<u8> = Vec::new();
    let mut i: usize = 0;
    while i < s.len()
        invariant
            s@.len() % 2 == 0,
            i % 2 == 0,
            i <= s@.len(),
            out@.len() == i / 2,
            forall|j: int| 0 <= j < i ==> #[trigger] is_hex_digit(s@[j]),
            forall|k: int| 0 <= k < i / 2 ==> #[trigger] out@[k] == hex_byte(s@, k),
        decreases s@.len() - i,
    {
        let hi = hex_digit_value(s[i]);
        let lo = hex_digit_value(s[i + 1]);
        match (hi, lo) {
            (Some(h), Some(l)) => {
                out.push(h * 16 + l);
                assert(out@[(i / 2) as int] == hex_byte(s@, (i / 2) as int));
                i = i + 2;
            },
            _ => {
                return Err(());
            },
        }
    }
    assert(out@ =~= hex_bytes(s@));
    Ok(out)
}

/// Reads a string of hex digit pairs as bytes.
pub fn decode(s: &str) -> (r: Result<Vec<u8>, ()>)
    ensures
        match r {
            Ok(v) => hex_decodable(s@) && v@ == hex_bytes(s@),
            Err(_) => !hex_decodable(s@),
        },
{
    let cs = chars_of(s);
    decode_digits(&cs)
}

/// The six bytes of a hardware address given with or without separators.
pub fn parse_mac(mac: &str) -> (r: Result<Vec<u8>, WakeError>)
    ensures
        match r {
            Ok(b) => valid_mac(mac@) && b@ == mac_bytes(mac@) && b@.len() == 6,
            Err(WakeError::InvalidMac) => !hex_decodable(strip_separators(mac@, false)),
            Err(WakeError::InvalidMacLength) => hex_decodable(strip_separators(mac@, false))
                && strip_separators(mac@, false).len() != 12,
        },
{
    let digits = strip(mac, false);
    match decode_digits(&digits) {
        Ok(bytes) => {
            if bytes.len() != 6 {
                Err(WakeError::InvalidMacLength)
            } else {
                Ok(bytes)
            }
        },
        Err(_) => Err(WakeError::InvalidMac),
    }
}

/// The wake packet for a six-byte address.
pub fn magic_packet(mac: &Vec<u8>) -> (r: Vec<u8>)
    requires
        mac@.len() == 6,
    ensures
        r@ == magic_packet_of(mac@),
{
    let mut r: Vec<u8> = Vec::new();
    let mut i: usize = 0;
    while i < 102
        invariant
            mac@.len() == 6,
            i <= 102,
            r@ =~= magic_packet_of(mac@).subrange(0, i as int),
        decreases 102 - i,
    {
        if i < 6 {
            r.push(0xFF);
        } else {
            r.push(mac[(i - 6) % 6]);
        }
        i = i + 1;
    }
    r
}

/// What a wake-on-LAN request sends: one packet to the limited broadcast
/// address, and the same packet to each subnet target.
#[derive(Debug)]
pub struct WolPlan {
    pub packet: Vec<u8>,
    pub primary_target: String,
    pub subnet_targets: Vec<String>,
}

/// The subnet targets for an optional broadcast address: ports 9 and 7 of
/// it, once surrounding white space is removed, or none where nothing is left.
pub open spec fn subnet_targets_of(broadcast: Option<Seq<char>>) -> Seq<Seq<char>> {
    match broadcast {
        Some(ip) => if trim_of(ip).len() > 0 {
            seq![trim_of(ip) + ":9"@, trim_of(ip) + ":7"@]
        } else {
            seq![]
        },
        None => seq![],
    }
}

pub open spec fn opt_view(o: Option<&str>) -> Option<Seq<char>> {
    match o {
        Some(s) => Some(s@),
        None => None,
    }
}

/// The views of a list of strings.
pub open spec fn views(v: Seq<String>) -> Seq<Seq<char>> {
    v.map_values(|s: String| s@)
}

/// Plans a wake-on-LAN request.
pub fn wake_on_lan_plan(mac: &str, broadcast_ip: Option<&str>) -> (r: Result<WolPlan, WakeError>)
    ensures
        r.is_ok() == valid_mac(mac@),
        r matches Err(e) ==> (e == WakeError::InvalidMac) == !hex_decodable(
            strip_separators(mac@, false),
        ),
        r matches Ok(p) ==> {
            &&& p.packet@ == magic_packet_of(mac_bytes(mac@))
            &&& p.primary_target@ == "255.255.255.255:9"@
            &&& views(p.subnet_targets@) == subnet_targets_of(opt_view(broadcast_ip))
        },
{
    let bytes = match parse_mac(mac) {
        Ok(b) => b,
        Err(e) => {
            return Err(e);
        },
    };
    let packet = magic_packet(&bytes);
    let mut subnet_targets: Vec<String> = Vec::new();
    if let Some(ip) = broadcast_ip {
        let ip = trim(ip);
        if ip.unicode_len() > 0 {
            subnet_targets.push(concat(ip, ":9"));
            subnet_targets.push(concat(ip, ":7"));
        }
    }
    assert(views(subnet_targets@) =~= subnet_targets_of(opt_view(broadcast_ip)));
    Ok(WolPlan { packet, primary_target: String::from_str("255.255.255.255:9"), subnet_targets })
}

/// The request that wakes a device over the HTTP control protocol.
pub open spec fn http_wake_request_of(ip: Seq<char>) -> Seq<char> {
    "POST /keypress/PowerOn HTTP/1.1\r\nHost: "@ + ip
        + "\r\nContent-Length: 0\r\nConnection: close\r\n\r\n"@
}

/// `address:port` in text.
pub open spec fn endpoint_of(ip: Seq<char>, port: nat) -> Seq<char> {
    ip + ":"@ + decimal(port)
}

fn endpoint(ip: &str, port: u64) -> (r: String)
    ensures
        r@ == endpoint_of(ip@, port as nat),
{
    let mut r = concat(ip, ":");
    push_decimal(&mut r, port);
    r
}

/// The three ways to wake a device, each ready to be carried out.
#[derive(Debug)]
pub enum WakePlan {
    MagicPacket { plan: WolPlan },
    /// Run the debug-bridge tool with `connect_args`, then with `wake_args`.
    DebugBridge { connect_args: Vec<String>, wake_args: Vec<String> },
    /// Open a connection to `address` and write `request` to it.
    HttpControl { address: String, request: String },
}

/// Plans the HTTP control wake of the device at `ip`.
pub fn http_wake_plan(ip: &str) -> (r: WakePlan)
    ensures
        r matches WakePlan::HttpControl { address, request } && address@ == endpoint_of(
            ip@,
            HTTP_CONTROL_PORT as nat,
        ) && request@ == http_wake_request_of(ip@),
{
    let address = endpoint(ip, HTTP_CONTROL_PORT);
    let mut request = concat("POST /keypress/PowerOn HTTP/1.1\r\nHost: ", ip);
    request.append("\r\nContent-Length: 0\r\nConnection: close\r\n\r\n");
    WakePlan::HttpControl { address, request }
}

/// The debug-bridge arguments that connect to a device.
pub open spec fn bridge_connect_args(target: Seq<char>) -> Seq<Seq<char>> {
    seq!["connect"@, target]
}

/// The debug-bridge arguments that send the wake key event to a device.
pub open spec fn bridge_wake_args(target: Seq<char>) -> Seq<Seq<char>> {
    seq!["-s"@, target, "shell"@, "input"@, "keyevent"@, "KEYCODE_WAKEUP"@]
}

/// Plans the debug-bridge wake of the device at `ip`, on `port` or else on
/// the default port.
pub fn debug_bridge_wake_plan(ip: &str, port: Option<u16>) -> (r: WakePlan)
    ensures
        ({
            let target = endpoint_of(
                ip@,
                (match port {
                    Some(p) => p,
                    None => DEFAULT_DEBUG_BRIDGE_PORT,
                }) as nat,
            );
            r matches WakePlan::DebugBridge { connect_args, wake_args } && views(connect_args@)
                == bridge_connect_args(target) && views(wake_args@) == bridge_wake_args(target)
        }),
{
    let p = match port {
        Some(p) => p,
        None => DEFAULT_DEBUG_BRIDGE_PORT,
    };
    let target = endpoint(ip, p as u64);
    let mut connect_args: Vec<String> = Vec::new();
    connect_args.push(String::from_str("connect"));
    connect_args.push(target.clone());
    let mut wake_args: Vec<String> = Vec::new();
    wake_args.push(String::from_str("-s"));
    wake_args.push(target);
    wake_args.push(String::from_str("shell"));
    wake_args.push(String::from_str("input"));
    wake_args.push(String::from_str("keyevent"));
    wake_args.push(String::from_str("KEYCODE_WAKEUP"));
    assert(views(connect_args@) =~= bridge_connect_args(endpoint_of(ip@, p as nat)));
    assert(views(wake_args@) =~= bridge_wake_args(endpoint_of(ip@, p as nat)));
    WakePlan::DebugBridge { connect_args, wake_args }
}

/// Plans the wake of a streaming device.
pub fn plan_wake(device: &StreamingDeviceConfig) -> (r: Result<WakePlan, WakeError>)
    ensures
        match device {
            StreamingDeviceConfig::Wol { mac, broadcast_ip } => {
                &&& r.is_ok() == valid_mac(mac@)
                &&& r matches Err(e) ==> (e == WakeError::InvalidMac) == !hex_decodable(
                    strip_separators(mac@, false),
                )
                &&& r matches Ok(w) ==> (w matches WakePlan::MagicPacket { plan: p }
                    && p.packet@ == magic_packet_of(mac_bytes(mac@)) && p.primary_target@
                    == "255.255.255.255:9"@ && views(p.subnet_targets@) == subnet_targets_of(
                    match broadcast_ip {
                        Some(b) => Some(b@),
                        None => None,
                    },
                ))
            },
            StreamingDeviceConfig::Adb { ip, port } => {
                let target = endpoint_of(
                    ip@,
                    (match port {
                        Some(p) => *p,
                        None => DEFAULT_DEBUG_BRIDGE_PORT,
                    }) as nat,
                );
                r matches Ok(WakePlan::DebugBridge { connect_args, wake_args }) && views(
                    connect_args@,
                ) == bridge_connect_args(target) && views(wake_args@) == bridge_wake_args(target)
            },
            StreamingDeviceConfig::Roku { ip } => r matches Ok(
                WakePlan::HttpControl { address, request },
            ) && address@ == endpoint_of(ip@, HTTP_CONTROL_PORT as nat) && request@
                == http_wake_request_of(ip@),
        },
{
    match device {
        StreamingDeviceConfig::Wol { mac, broadcast_ip } => {
            let b = match broadcast_ip {
                Some(b) => Some(b.as_str()),
                None => None,
            };
            match wake_on_lan_plan(mac.as_str(), b) {
                Ok(plan) => Ok(WakePlan::MagicPacket { plan }),
                Err(e) => Err(e),
            }
        },
        StreamingDeviceConfig::Adb { ip, port } => Ok(debug_bridge_wake_plan(ip.as_str(), *port)),
        StreamingDeviceConfig::Roku { ip } => Ok(http_wake_plan(ip.as_str())),
    }
}

/// A hardware address as a user may type it for the settings: twelve hex
/// digits, with `:`, `-` or spaces between them.
pub open spec fn valid_mac_entry(s: Seq<char>) -> bool {
    let d = strip_separators(s, true);
    d.len() == 12 && all_hex(d)
}

/// Twelve digits written in pairs joined by `:`.
pub open spec fn colon_pairs(d: Seq<char>) -> Seq<char> {
    Seq::new(17, |k: int| if k % 3 == 2 { ':' } else { d[(k / 3) * 2 + k % 3] })
}

/// The canonical form `AA:BB:CC:DD:EE:FF` of a hardware address typed by a
/// user (letters keep their case); `None` where it is not twelve hex digits.
pub fn normalize_mac(mac: &str) -> (r: Option<String>)
    ensures
        r is Some == valid_mac_entry(mac@),
        r matches Some(m) ==> m@ == colon_pairs(strip_separators(mac@, true)),
{
    let d = strip(mac, true);
    if d.len() != 12 {
        return None;
    }
    let mut i: usize = 0;
    while i < 12
        invariant
            d@.len() == 12,
            d@ == strip_separators(mac@, true),
            i <= 12,
            forall|j: int| 0 <= j < i ==> #[trigger] is_hex_digit(d@[j]),
        decreases 12 - i,
    {
        if hex_digit_value(d[i]).is_none() {
            assert(!is_hex_digit(d@[i as int]));
            return None;
        }
        i = i + 1;
    }
    let mut r = String::new();
    let mut k: usize = 0;
    while k < 17
        invariant
            d@.len() == 12,
            d@ == strip_separators(mac@, true),
            k <= 17,
            r@ =~= colon_pairs(d@).subrange(0, k as int),
        decreases 17 - k,
    {
        if k % 3 == 2 {
            push_char(&mut r, ':');
        } else {
            push_char(&mut r, d[(k / 3) * 2 + k % 3]);
        }
        k = k + 1;
    }
    Some(r)
}

/// For every valid hardware address the wake packet is 102 bytes: six
/// `0xFF` bytes followed by sixteen copies of the six address bytes.
pub proof fn lemma_wake_packet_layout(mac: Seq<char>)
    requires
        valid_mac(mac),
    ensures
        mac_bytes(mac).len() == 6,
        magic_packet_of(mac_bytes(mac)).len() == 102,
        forall|i: int| 0 <= i < 6 ==> #[trigger] magic_packet_of(mac_bytes(mac))[i] == 0xFF,
        forall|k: int, j: int|
            0 <= k < 16 && 0 <= j < 6 ==> #[trigger] magic_packet_of(mac_bytes(mac))[6 + 6 * k + j]
                == mac_bytes(mac)[j],
{
    assert forall|k: int, j: int| 0 <= k < 16 && 0 <= j < 6 implies #[trigger] magic_packet_of(
        mac_bytes(mac),
    )[6 + 6 * k + j] == mac_bytes(mac)[j] by {
        assert((6 * k + j) % 6 == j) by (nonlinear_arith)
            requires
                0 <= k,
                0 <= j < 6,
        ;
        assert(6 + 6 * k + j - 6 == 6 * k + j);
    }
}

} // verus!
