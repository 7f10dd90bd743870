//! The session with one television, as a state machine free of I/O.
//!
//! The caller hands each request and each I/O completion to
//! [`Session::step`], carries out the [`Action`] it returns, and reports how
//! that went as the next [`Event`]. The session owns two channels: the
//! command channel (registration and request/response traffic) and the input
//! channel (button frames). It tracks which of them are open, whether the
//! session is connected, and the request counter.
use vstd::prelude::*;
use crate::json::Reply;
use crate::protocol::{
    button_frame, button_frame_of, chosen_mac, classify_registration, command_uri,
    command_uri_of, handshake_of, handshake_payload, mute_payload_of, plain_ok, rejection_reason,
    request_envelope, request_of, select_mac, text_is, CommandResult, Registration, GET_INFO,
    INPUT_SOCKET, SET_MUTE, STATUS_PALM, STATUS_PRIMARY, STATUS_WIFI, TURN_OFF, VOLUME_DOWN,
    VOLUME_UP,
};
use crate::text::{concat, copy_text};

verus! {

/// Bound on opening the command channel, in seconds.
pub const CONNECT_TIMEOUT_SECS: u64 = 5;

/// Bound on the registration reply when a credential was given.
pub const SHORT_HANDSHAKE_SECS: u64 = 5;

/// Bound on the registration reply when the user must confirm a prompt.
pub const LONG_HANDSHAKE_SECS: u64 = 60;

/// Bound on the reply to one request.
pub const RESPONSE_TIMEOUT_SECS: u64 = 3;

/// What the caller asks of the session.
#[derive(Debug)]
pub enum Request {
    Connect { name: String, ip: String, credential: Option<String>, use_ssl: bool },
    Disconnect,
    Button { name: String },
    VolumeUp,
    VolumeDown,
    SetMute { mute: bool },
    PowerOff,
    /// The keepalive's no-op request.
    Keepalive,
    /// Close the input channel and open a new one.
    RefreshInput,
    /// The hardware address of the interface the television is connected by.
    FetchMac,
    /// A request to `uri` with `payload` (JSON text; `{}` when absent),
    /// whose reply frame is handed back.
    Command { uri: String, payload: Option<String> },
    /// The connection status reply of the first status endpoint that
    /// answers without error.
    NetworkStatus,
}

/// What happened: a new request, or how the last action went.
#[derive(Debug)]
pub enum Event {
    Start { request: Request },
    /// The channels named by `Close` are closed (or given up).
    Closed,
    /// The channel asked for is open.
    Opened,
    OpenFailed { reason: String },
    /// The frame was written.
    Sent,
    SendFailed { reason: String },
    /// A frame arrived on the command channel: its reply where it is a JSON
    /// text, `None` for anything else.
    Received { reply: Option<Reply> },
    ReadFailed { reason: String },
    /// The command channel ended.
    StreamEnded,
    /// The bound of the last open or wait ran out.
    TimedOut,
}

/// What the caller is to do next.
#[derive(Debug)]
pub enum Action {
    /// Close these channels (best effort), then report `Closed`.
    Close { input: bool, command: bool },
    /// Open the command channel within `timeout_secs`; report `Opened`,
    /// `OpenFailed` or `TimedOut`.
    OpenCommand { uri: String, use_ssl: bool, timeout_secs: u64 },
    /// Open the input channel; report `Opened` or `OpenFailed`.
    OpenInput { uri: String, use_ssl: bool },
    /// Write a text frame to the command channel; report `Sent` or `SendFailed`.
    SendCommand { text: String },
    /// Write a text frame to the input channel; report `Sent` or `SendFailed`.
    SendInput { text: String },
    /// Read one frame from the command channel; the wait that starts here is
    /// bounded by `timeout_secs` in all.
    Receive { timeout_secs: u64 },
    /// Read one more frame within the bound of the last `Receive`.
    ReceiveMore,
    /// The request is over: close these channels (best effort) and hand
    /// `outcome` to the caller.
    Finish { close_input: bool, close_command: bool, outcome: Result<CommandResult, SessionError> },
}

/// Why a request failed.
#[derive(Debug)]
pub enum SessionError {
    /// A command was asked for while disconnected; nothing was sent.
    NotConnected,
    /// A request arrived while another was in progress.
    Busy,
    /// An event that the current stage does not expect.
    Unexpected,
    ConnectTimeout,
    ConnectFailed { reason: String },
    HandshakeSendFailed { reason: String },
    /// The device rejected the registration.
    Rejected { reason: String },
    /// No registration reply within the bound.
    HandshakeTimeout,
    ChannelError { reason: String },
    ChannelClosed,
    SendFailed { reason: String },
    ResponseTimeout,
    NoSocketPath,
    InputOpenFailed { reason: String },
    /// The input channel could not be set up for a button.
    InputChannel { reason: String },
    ButtonSendFailed { reason: String },
    /// Every status endpoint answered with an error; the last one's.
    StatusFailed { reason: String },
}

pub open spec fn error_message(e: SessionError) -> Seq<char> {
    match e {
        SessionError::NotConnected => "Not connected"@,
        SessionError::Busy => "Another operation is in progress"@,
        SessionError::Unexpected => "Unexpected event"@,
        SessionError::ConnectTimeout => "Connection timeout"@,
        SessionError::ConnectFailed { reason } => reason@,
        SessionError::HandshakeSendFailed { reason } => "Failed to send handshake: "@ + reason@,
        SessionError::Rejected { reason } => "Registration error: "@ + reason@,
        SessionError::HandshakeTimeout => "Registration timeout - check TV for pairing prompt"@,
        SessionError::ChannelError { reason } => "WebSocket error: "@ + reason@,
        SessionError::ChannelClosed => "Connection closed"@,
        SessionError::SendFailed { reason } => "Send failed (disconnected): "@ + reason@,
        SessionError::ResponseTimeout => "Command timeout (disconnected)"@,
        SessionError::NoSocketPath => "No socket path in response"@,
        SessionError::InputOpenFailed { reason } => reason@,
        SessionError::InputChannel { reason } => "Failed to connect input socket: "@ + reason@,
        SessionError::ButtonSendFailed { reason } => "Button send failed (disconnected): "@
            + reason@,
        SessionError::StatusFailed { reason } => reason@,
    }
}

impl SessionError {
    pub fn message(&self) -> (r: String)
        ensures
            r@ == error_message(*self),
    {
        match self {
            SessionError::NotConnected => String::from_str("Not connected"),
            SessionError::Busy => String::from_str("Another operation is in progress"),
            SessionError::Unexpected => String::from_str("Unexpected event"),
            SessionError::ConnectTimeout => String::from_str("Connection timeout"),
            SessionError::ConnectFailed { reason } => reason.clone(),
            SessionError::HandshakeSendFailed { reason } => concat(
                "Failed to send handshake: ",
                reason.as_str(),
            ),
            SessionError::Rejected { reason } => concat("Registration error: ", reason.as_str()),
            SessionError::HandshakeTimeout => String::from_str(
                "Registration timeout - check TV for pairing prompt",
            ),
            SessionError::ChannelError { reason } => concat("WebSocket error: ", reason.as_str()),
            SessionError::ChannelClosed => String::from_str("Connection closed"),
            SessionError::SendFailed { reason } => concat(
                "Send failed (disconnected): ",
                reason.as_str(),
            ),
            SessionError::ResponseTimeout => String::from_str("Command timeout (disconnected)"),
            SessionError::NoSocketPath => String::from_str("No socket path in response"),
            SessionError::InputOpenFailed { reason } => reason.clone(),
            SessionError::InputChannel { reason } => concat(
                "Failed to connect input socket: ",
                reason.as_str(),
            ),
            SessionError::ButtonSendFailed { reason } => concat(
                "Button send failed (disconnected): ",
                reason.as_str(),
            ),
            SessionError::StatusFailed { reason } => reason.clone(),
        }
    }
}

/// The plain commands: one request, one reply.
#[derive(Debug)]
pub enum Plain {
    VolumeUp,
    VolumeDown,
    SetMute { mute: bool },
    PowerOff,
    Keepalive,
}

/// What follows once the input channel is open.
#[derive(Debug)]
pub enum AfterInput {
    /// Registration is done: report the connection.
    Connected,
    /// Write this button frame.
    Button { frame: String },
    /// The refresh is done.
    Refreshed,
}

/// Why a request is in flight on the command channel.
#[derive(Debug)]
pub enum Purpose {
    /// Asks for the path of a new input channel.
    InputSocket { after: AfterInput },
    Plain { command: Plain },
    /// Asks for the interface addresses.
    NetworkInfo,
    /// Asks status endpoint number `attempt` which interface is connected,
    /// to choose between the two addresses.
    NetworkStatus { attempt: u8, wifi: Option<String>, wired: Option<String> },
    /// A request whose reply is handed back.
    Command { uri: String, payload: Option<String> },
    /// Asks status endpoint number `attempt` for the connection status.
    Status { attempt: u8 },
}

/// Where the session is within the request in progress.
#[derive(Debug)]
pub enum Stage {
    Idle,
    /// Connecting: stale channels are being closed.
    Resetting { credential: Option<String> },
    /// Connecting: the command channel is being opened.
    Opening { credential: Option<String> },
    /// Connecting: the registration envelope is being written.
    Registering { with_credential: bool },
    /// Connecting: waiting for the registration reply.
    AwaitingRegistration { with_credential: bool },
    /// A request envelope is being written.
    Requesting { purpose: Purpose },
    /// Waiting for the reply to a request.
    AwaitingReply { purpose: Purpose },
    /// Refreshing: the old input channel is being closed.
    ClosingInput,
    OpeningInput { after: AfterInput },
    /// A button frame is being written.
    SendingButton,
}

/// The status endpoint tried at each attempt.
pub open spec fn status_uri(attempt: u8) -> Seq<char> {
    if attempt == 0 {
        STATUS_PRIMARY@
    } else if attempt == 1 {
        STATUS_WIFI@
    } else {
        STATUS_PALM@
    }
}

/// The endpoint of the request made for a purpose.
pub open spec fn purpose_uri(p: Purpose) -> Seq<char> {
    match p {
        Purpose::InputSocket { .. } => INPUT_SOCKET@,
        Purpose::Plain { command } => match command {
            Plain::VolumeUp => VOLUME_UP@,
            Plain::VolumeDown => VOLUME_DOWN@,
            Plain::SetMute { .. } => SET_MUTE@,
            Plain::PowerOff => TURN_OFF@,
            Plain::Keepalive => GET_INFO@,
        },
        Purpose::NetworkInfo => GET_INFO@,
        Purpose::NetworkStatus { attempt, .. } => status_uri(attempt),
        Purpose::Command { uri, .. } => uri@,
        Purpose::Status { attempt } => status_uri(attempt),
    }
}

/// The payload of the request made for a purpose.
pub open spec fn purpose_payload(p: Purpose) -> Seq<char> {
    match p {
        Purpose::Plain { command: Plain::SetMute { mute } } => mute_payload_of(mute),
        Purpose::Command { payload: Some(p), .. } => p@,
        _ => "{}"@,
    }
}

/// The bound on the registration reply.
pub open spec fn handshake_timeout(with_credential: bool) -> u64 {
    if with_credential {
        SHORT_HANDSHAKE_SECS
    } else {
        LONG_HANDSHAKE_SECS
    }
}

/// Requests that need an open session.
pub open spec fn needs_connection(r: Request) -> bool {
    !(r is Connect) && !(r is Disconnect)
}

pub open spec fn opt_text(o: Option<String>) -> Option<Seq<char>> {
    match o {
        Some(s) => Some(s@),
        None => None,
    }
}

/// The result of a successful connect.
pub open spec fn connected_result(r: CommandResult, credential: Option<String>) -> bool {
    r.success && text_is(r.message, "Connected"@) && r.client_key == credential && r.error is None
        && r.mac is None && r.payload is None
}

/// The result that hands back a hardware address, and nothing else.
pub open spec fn mac_ok(r: CommandResult, mac: Option<String>) -> bool {
    r.success && r.mac == mac && r.message is None && r.error is None && r.client_key is None
        && r.payload is None
}

/// The result that hands back a reply frame, and nothing else.
pub open spec fn payload_ok(r: CommandResult, text: String) -> bool {
    r.success && r.payload == Some(text) && r.message is None && r.error is None && r.client_key
        is None && r.mac is None
}

/// The error of a status reply: its error text, else `unknown`.
pub open spec fn status_error(r: Reply) -> Seq<char> {
    match r.error {
        Some(e) => e@,
        None => "unknown"@,
    }
}

/// The session with one television.
#[derive(Debug)]
pub struct Session {
    pub connected: bool,
    pub command_open: bool,
    pub input_open: bool,
    /// The id of the last request sent.
    pub msg_id: u64,
    pub name: String,
    pub ip: String,
    pub use_ssl: bool,
    /// The pairing credential the device returned at registration.
    pub credential: Option<String>,
    pub stage: Stage,
}

impl Session {
    /// Fully disconnected (no channel, not connected) or fully connected
    /// (command channel open), with the channels each stage relies on.
    pub open spec fn wf(&self) -> bool {
        &&& self.connected ==> self.command_open
        &&& self.input_open ==> self.command_open
        &&& match self.stage {
            Stage::Idle => self.connected == self.command_open,
            Stage::Resetting { .. } => !self.connected && !self.command_open,
            Stage::Opening { .. } => !self.connected && !self.command_open,
            Stage::Registering { .. } => !self.connected && self.command_open
                && !self.input_open,
            Stage::AwaitingRegistration { .. } => !self.connected && self.command_open
                && !self.input_open,
            Stage::Requesting { purpose } => self.connected && (purpose is InputSocket
                ==> !self.input_open),
            Stage::AwaitingReply { purpose } => self.connected && (purpose is InputSocket
                ==> !self.input_open),
            Stage::ClosingInput => self.connected && !self.input_open,
            Stage::OpeningInput { .. } => self.connected && !self.input_open,
            Stage::SendingButton => self.connected && self.input_open,
        }
    }

    /// At rest: no request in progress.
    pub open spec fn idle(&self) -> bool {
        self.stage is Idle
    }

    /// A new, disconnected session.
    pub fn new() -> (r: Session)
        ensures
            r.wf(),
            r.idle(),
            !r.connected && !r.command_open && !r.input_open,
            r.msg_id == 0,
            r.credential is None,
            r.use_ssl,
    {
        Session {
            connected: false,
            command_open: false,
            input_open: false,
            msg_id: 0,
            name: String::new(),
            ip: String::new(),
            use_ssl: true,
            credential: None,
            stage: Stage::Idle,
        }
    }

    pub fn is_connected(&self) -> (r: bool)
        ensures
            r == self.connected,
    {
        self.connected
    }

    /// Sends the next request for `purpose`.
    fn begin_exchange(&mut self, purpose: Purpose) -> (a: Action)
        requires
            old(self).connected,
            old(self).command_open,
            old(self).input_open ==> old(self).command_open,
            old(self).msg_id < u64::MAX,
        ensures
            final(self).msg_id == old(self).msg_id + 1,
            final(self).stage == (Stage::Requesting { purpose }),
            a matches Action::SendCommand { text } && text@ == request_of(
                final(self).msg_id as nat,
                purpose_uri(purpose),
                purpose_payload(purpose),
            ),
            final(self).connected && final(self).command_open,
            final(self).input_open == old(self).input_open,
            final(self).name == old(self).name,
            final(self).ip == old(self).ip,
            final(self).use_ssl == old(self).use_ssl,
            final(self).credential == old(self).credential,
    {
        self.msg_id = self.msg_id + 1;
        let uri: &str = match &purpose {
            Purpose::InputSocket { .. } => INPUT_SOCKET,
            Purpose::Plain { command } => match command {
                Plain::VolumeUp => VOLUME_UP,
                Plain::VolumeDown => VOLUME_DOWN,
                Plain::SetMute { .. } => SET_MUTE,
                Plain::PowerOff => TURN_OFF,
                Plain::Keepalive => GET_INFO,
            },
            Purpose::NetworkInfo => GET_INFO,
            Purpose::NetworkStatus { attempt, .. } => if *attempt == 0 {
                STATUS_PRIMARY
            } else if *attempt == 1 {
                STATUS_WIFI
            } else {
                STATUS_PALM
            },
            Purpose::Command { uri, .. } => uri.as_str(),
            Purpose::Status { attempt } => if *attempt == 0 {
                STATUS_PRIMARY
            } else if *attempt == 1 {
                STATUS_WIFI
            } else {
                STATUS_PALM
            },
        };
        let payload: &str = match &purpose {
            Purpose::Plain { command: Plain::SetMute { mute } } => if *mute {
                "{\"mute\":true}"
            } else {
                "{\"mute\":false}"
            },
            Purpose::Command { payload: Some(p), .. } => p.as_str(),
            _ => "{}",
        };
        let text = request_envelope(self.msg_id, uri, payload);
        self.stage = Stage::Requesting { purpose };
        Action::SendCommand { text }
    }

    /// Ends the request: the session goes back to rest with the same channels.
    fn finish(&mut self, outcome: Result<CommandResult, SessionError>) -> (a: Action)
        ensures
            final(self).stage is Idle,
            a == (Action::Finish { close_input: false, close_command: false, outcome }),
            final(self).connected == old(self).connected,
            final(self).command_open == old(self).command_open,
            final(self).input_open == old(self).input_open,
            final(self).msg_id == old(self).msg_id,
            final(self).name == old(self).name,
            final(self).ip == old(self).ip,
            final(self).use_ssl == old(self).use_ssl,
            final(self).credential == old(self).credential,
    {
        self.stage = Stage::Idle;
        Action::Finish { close_input: false, close_command: false, outcome }
    }

    /// Ends the request and the session: both channels are closed.
    fn drop_session(&mut self, outcome: Result<CommandResult, SessionError>) -> (a: Action)
        ensures
            final(self).stage is Idle,
            a == (Action::Finish {
                close_input: old(self).input_open,
                close_command: old(self).command_open,
                outcome,
            }),
            !final(self).connected && !final(self).command_open && !final(self).input_open,
            final(self).msg_id == old(self).msg_id,
            final(self).name == old(self).name,
            final(self).ip == old(self).ip,
            final(self).use_ssl == old(self).use_ssl,
            final(self).credential == old(self).credential,
    {
        let a = Action::Finish {
            close_input: self.input_open,
            close_command: self.command_open,
            outcome,
        };
        self.connected = false;
        self.command_open = false;
        self.input_open = false;
        self.stage = Stage::Idle;
        a
    }

    /// The result of a connect that registered.
    fn connected_outcome(&self) -> (r: CommandResult)
        ensures
            connected_result(r, self.credential),
    {
        let mut r = CommandResult::ok_with_message("Connected");
        r.client_key = copy_text(&self.credential);
        r
    }
}

/// Everything but the stage is unchanged.
pub open spec fn same_but_stage(s: Session, t: Session) -> bool {
    &&& t.connected == s.connected
    &&& t.command_open == s.command_open
    &&& t.input_open == s.input_open
    &&& t.msg_id == s.msg_id
    &&& same_device(s, t)
    &&& t.credential == s.credential
}

/// The device identity is unchanged.
pub open spec fn same_device(s: Session, t: Session) -> bool {
    t.name == s.name && t.ip == s.ip && t.use_ssl == s.use_ssl
}

/// The session is over: both channels closed, at rest.
pub open spec fn dropped(s: Session, t: Session) -> bool {
    &&& !t.connected && !t.command_open && !t.input_open
    &&& t.stage is Idle
    &&& t.msg_id == s.msg_id
    &&& same_device(s, t)
}

/// The request ends with `outcome`, the session otherwise unchanged.
pub open spec fn finished(s: Session, t: Session, a: Action, outcome: Result<CommandResult, SessionError>) -> bool {
    &&& a == (Action::Finish { close_input: false, close_command: false, outcome })
    &&& t.stage is Idle
    &&& same_but_stage(s, t)
}

/// The event is refused and nothing changes.
pub open spec fn refused(s: Session, t: Session, a: Action, e: SessionError) -> bool {
    a == (Action::Finish { close_input: false, close_command: false, outcome: Err(e) }) && t == s
}

/// The next request, for `p`, is written with the next id.
pub open spec fn sends_request(s: Session, t: Session, a: Action, p: Purpose) -> bool {
    &&& t.stage == (Stage::Requesting { purpose: p })
    &&& t.msg_id == s.msg_id + 1
    &&& (a matches Action::SendCommand { text } && text@ == request_of(
        t.msg_id as nat,
        purpose_uri(p),
        purpose_payload(p),
    ))
    &&& t.connected && t.command_open && t.input_open == s.input_open
    &&& same_device(s, t)
    &&& t.credential == s.credential
}

/// The error that an I/O failure on the command channel stands for.
pub open spec fn failure_error(e: Event) -> SessionError {
    match e {
        Event::SendFailed { reason } => SessionError::SendFailed { reason },
        Event::ReadFailed { reason } => SessionError::ChannelError { reason },
        Event::StreamEnded => SessionError::ChannelClosed,
        _ => SessionError::ResponseTimeout,
    }
}

/// The error that an I/O failure while registering stands for.
pub open spec fn registration_failure(e: Event) -> SessionError {
    match e {
        Event::SendFailed { reason } => SessionError::ChannelError { reason },
        Event::ReadFailed { reason } => SessionError::ChannelError { reason },
        Event::StreamEnded => SessionError::ChannelClosed,
        _ => SessionError::HandshakeTimeout,
    }
}

/// A request on the command channel failed with `err`: the session is over.
/// A connect still reports its registration; a network status query falls
/// back to the first known address.
pub open spec fn exchange_failed_spec(s: Session, p: Purpose, err: SessionError, t: Session, a: Action) -> bool {
    &&& dropped(s, t)
    &&& t.credential == s.credential
    &&& a matches Action::Finish { close_input, close_command, outcome } && close_input == s.input_open
        && close_command && match p {
        Purpose::InputSocket { after: AfterInput::Connected } => outcome matches Ok(r)
            && connected_result(r, s.credential),
        Purpose::InputSocket { after: AfterInput::Button { .. } } => outcome matches Err(
            SessionError::InputChannel { reason },
        ) && reason@ == error_message(err),
        Purpose::NetworkStatus { wifi, wired, .. } => outcome matches Ok(r) && mac_ok(
            r,
            chosen_mac(wifi, wired, None),
        ),
        _ => outcome == Err::<CommandResult, SessionError>(err),
    }
}

/// The input channel could not be set up, for `err`; the command channel is fine.
pub open spec fn input_failed_spec(s: Session, after: AfterInput, err: SessionError, t: Session, a: Action) -> bool {
    match after {
        AfterInput::Connected => a matches Action::Finish { close_input: false, close_command: false, outcome: Ok(r) }
            && connected_result(r, s.credential) && t.stage is Idle && same_but_stage(s, t),
        AfterInput::Button { .. } => (a matches Action::Finish {
            close_input: false,
            close_command: false,
            outcome: Err(SessionError::InputChannel { reason }),
        } && reason@ == error_message(err)) && t.stage is Idle && same_but_stage(s, t),
        AfterInput::Refreshed => finished(s, t, a, Err(err)),
    }
}

/// What the reply to a request for `p` does.
pub open spec fn reply_spec(s: Session, p: Purpose, reply: Reply, t: Session, a: Action) -> bool {
    match p {
        Purpose::InputSocket { after } => match reply.socket_path {
            Some(path) => a == (Action::OpenInput { uri: path, use_ssl: s.use_ssl }) && t.stage == (
            Stage::OpeningInput { after }) && same_but_stage(s, t),
            None => input_failed_spec(s, after, SessionError::NoSocketPath, t, a),
        },
        Purpose::Plain { command: Plain::PowerOff } => dropped(s, t) && t.credential == s.credential
            && (a matches Action::Finish { close_input, close_command, outcome: Ok(r) } && close_input
            == s.input_open && close_command == s.command_open && r.success && text_is(
            r.message,
            "TV powered off"@,
        )),
        Purpose::Plain { .. } => a matches Action::Finish {
            close_input: false,
            close_command: false,
            outcome: Ok(r),
        } && plain_ok(r) && t.stage is Idle && same_but_stage(s, t),
        Purpose::Command { .. } => a matches Action::Finish {
            close_input: false,
            close_command: false,
            outcome: Ok(r),
        } && payload_ok(r, reply.text) && t.stage is Idle && same_but_stage(s, t),
        Purpose::Status { attempt } => if !reply.has_error {
            a matches Action::Finish { close_input: false, close_command: false, outcome: Ok(r) }
                && payload_ok(r, reply.text) && t.stage is Idle && same_but_stage(s, t)
        } else if attempt < 2 {
            sends_request(s, t, a, Purpose::Status { attempt: (attempt + 1) as u8 })
        } else {
            a matches Action::Finish {
                close_input: false,
                close_command: false,
                outcome: Err(SessionError::StatusFailed { reason }),
            } && reason@ == status_error(reply) && t.stage is Idle && same_but_stage(s, t)
        },
        Purpose::NetworkInfo => sends_request(
            s,
            t,
            a,
            Purpose::NetworkStatus { attempt: 0, wifi: reply.wifi_mac, wired: reply.wired_mac },
        ),
        Purpose::NetworkStatus { attempt, wifi, wired } => if !reply.has_error {
            a matches Action::Finish { close_input: false, close_command: false, outcome: Ok(r) } && mac_ok(r, chosen_mac(wifi, wired, Some(reply)))
                && t.stage is Idle && same_but_stage(s, t)
        } else if attempt < 2 {
            sends_request(s, t, a, Purpose::NetworkStatus { attempt: (attempt + 1) as u8, wifi, wired })
        } else {
            a matches Action::Finish { close_input: false, close_command: false, outcome: Ok(r) } && mac_ok(r, chosen_mac(wifi, wired, None))
                && t.stage is Idle && same_but_stage(s, t)
        },
    }
}

/// What a request taken at rest does.
pub open spec fn start_spec(s: Session, request: Request, t: Session, a: Action) -> bool {
    if needs_connection(request) && !s.connected {
        refused(s, t, a, SessionError::NotConnected)
    } else {
        match request {
            Request::Connect { name, ip, credential, use_ssl } => {
                &&& t.name == name && t.ip == ip && t.use_ssl == use_ssl
                &&& !t.connected && !t.input_open && !t.command_open
                &&& t.credential is None
                &&& t.msg_id == s.msg_id
                &&& if s.input_open || s.command_open {
                    a == (Action::Close { input: s.input_open, command: s.command_open }) && t.stage
                        == (Stage::Resetting { credential })
                } else {
                    a matches Action::OpenCommand { uri, use_ssl: u, timeout_secs: k } && uri@
                        == command_uri_of(ip@, use_ssl) && u == use_ssl && k == CONNECT_TIMEOUT_SECS
                        && t.stage == (Stage::Opening { credential })
                }
            },
            Request::Disconnect => dropped(s, t) && t.credential is None && (a matches Action::Finish {
                close_input,
                close_command,
                outcome: Ok(r),
            } && close_input == s.input_open && close_command == s.command_open && plain_ok(r)),
            Request::Button { name } => if s.input_open {
                a matches Action::SendInput { text } && text@ == button_frame_of(name@) && t.stage is SendingButton
                    && same_but_stage(s, t)
            } else {
                t.stage matches Stage::Requesting {
                    purpose: Purpose::InputSocket { after: AfterInput::Button { frame } },
                } && frame@ == button_frame_of(name@) && sends_request(s, t, a, Purpose::InputSocket {
                    after: AfterInput::Button { frame },
                })
            },
            Request::RefreshInput => if s.input_open {
                a == (Action::Close { input: true, command: false }) && t.stage is ClosingInput
                    && !t.input_open && t.connected == s.connected && t.command_open == s.command_open
                    && t.msg_id == s.msg_id && same_device(s, t) && t.credential == s.credential
            } else {
                sends_request(s, t, a, Purpose::InputSocket { after: AfterInput::Refreshed })
            },
            Request::VolumeUp => sends_request(s, t, a, Purpose::Plain { command: Plain::VolumeUp }),
            Request::VolumeDown => sends_request(s, t, a, Purpose::Plain { command: Plain::VolumeDown }),
            Request::SetMute { mute } => sends_request(
                s,
                t,
                a,
                Purpose::Plain { command: Plain::SetMute { mute } },
            ),
            Request::PowerOff => sends_request(s, t, a, Purpose::Plain { command: Plain::PowerOff }),
            Request::Keepalive => sends_request(s, t, a, Purpose::Plain { command: Plain::Keepalive }),
            Request::FetchMac => sends_request(s, t, a, Purpose::NetworkInfo),
            Request::Command { uri, payload } => sends_request(
                s,
                t,
                a,
                Purpose::Command { uri, payload },
            ),
            Request::NetworkStatus => sends_request(s, t, a, Purpose::Status { attempt: 0 }),
        }
    }
}

/// The transition table: what `event` does to session `s`, giving `t` and
/// the action `a`.
pub open spec fn next(s: Session, event: Event, t: Session, a: Action) -> bool {
    match event {
        Event::Start { request } => if s.stage is Idle {
            start_spec(s, request, t, a)
        } else {
            refused(s, t, a, SessionError::Busy)
        },
        _ => match s.stage {
            Stage::Resetting { credential } => match event {
                Event::Closed => a matches Action::OpenCommand { uri, use_ssl, timeout_secs } && uri@
                    == command_uri_of(s.ip@, s.use_ssl) && use_ssl == s.use_ssl && timeout_secs
                    == CONNECT_TIMEOUT_SECS && t.stage == (Stage::Opening { credential })
                    && same_but_stage(s, t),
                _ => refused(s, t, a, SessionError::Unexpected),
            },
            Stage::Opening { credential } => match event {
                Event::Opened => a matches Action::SendCommand { text } && text@ == handshake_of(
                    opt_text(credential),
                ) && t.stage == (Stage::Registering { with_credential: credential is Some })
                    && t.command_open && !t.connected && t.input_open == s.input_open && t.msg_id
                    == s.msg_id && same_device(s, t) && t.credential == s.credential,
                Event::OpenFailed { reason } => finished(
                    s,
                    t,
                    a,
                    Err(SessionError::ConnectFailed { reason }),
                ),
                Event::TimedOut => finished(s, t, a, Err(SessionError::ConnectTimeout)),
                _ => refused(s, t, a, SessionError::Unexpected),
            },
            Stage::Registering { with_credential } => match event {
                Event::Sent => a == (Action::Receive {
                    timeout_secs: handshake_timeout(with_credential),
                }) && t.stage == (Stage::AwaitingRegistration { with_credential }) && same_but_stage(s, t),
                Event::SendFailed { reason } => dropped(s, t) && a == (Action::Finish {
                    close_input: s.input_open,
                    close_command: true,
                    outcome: Err(SessionError::HandshakeSendFailed { reason }),
                }),
                Event::ReadFailed { .. } | Event::StreamEnded | Event::TimedOut => dropped(s, t) && a == (
                Action::Finish {
                    close_input: s.input_open,
                    close_command: true,
                    outcome: Err(registration_failure(event)),
                }),
                _ => refused(s, t, a, SessionError::Unexpected),
            },
            Stage::AwaitingRegistration { with_credential } => match event {
                Event::Received { reply: None } => a is ReceiveMore && t == s,
                Event::Received { reply: Some(reply) } => if text_is(reply.kind, "registered"@) {
                    t.credential == reply.client_key && sends_request(
                        Session { connected: true, credential: reply.client_key, ..s },
                        t,
                        a,
                        Purpose::InputSocket { after: AfterInput::Connected },
                    )
                } else if text_is(reply.kind, "error"@) {
                    dropped(s, t) && (a matches Action::Finish {
                        close_input,
                        close_command: true,
                        outcome: Err(SessionError::Rejected { reason }),
                    } && close_input == s.input_open && reason@ == rejection_reason(reply))
                } else {
                    a is ReceiveMore && t == s
                },
                Event::SendFailed { .. } | Event::ReadFailed { .. } | Event::StreamEnded | Event::TimedOut => dropped(s, t) && a == (
                Action::Finish {
                    close_input: s.input_open,
                    close_command: true,
                    outcome: Err(registration_failure(event)),
                }),
                _ => refused(s, t, a, SessionError::Unexpected),
            },
            Stage::Requesting { purpose } => match event {
                Event::Sent => a == (Action::Receive { timeout_secs: RESPONSE_TIMEOUT_SECS })
                    && t.stage == (Stage::AwaitingReply { purpose }) && same_but_stage(s, t),
                Event::SendFailed { .. } | Event::ReadFailed { .. } | Event::StreamEnded | Event::TimedOut => exchange_failed_spec(
                    s,
                    purpose,
                    failure_error(event),
                    t,
                    a,
                ),
                _ => refused(s, t, a, SessionError::Unexpected),
            },
            Stage::AwaitingReply { purpose } => match event {
                Event::Received { reply: None } => a is ReceiveMore && t == s,
                Event::Received { reply: Some(reply) } => reply_spec(s, purpose, reply, t, a),
                Event::SendFailed { .. } | Event::ReadFailed { .. } | Event::StreamEnded | Event::TimedOut => exchange_failed_spec(
                    s,
                    purpose,
                    failure_error(event),
                    t,
                    a,
                ),
                _ => refused(s, t, a, SessionError::Unexpected),
            },
            Stage::ClosingInput => match event {
                Event::Closed => sends_request(
                    s,
                    t,
                    a,
                    Purpose::InputSocket { after: AfterInput::Refreshed },
                ),
                _ => refused(s, t, a, SessionError::Unexpected),
            },
            Stage::OpeningInput { after } => match event {
                Event::Opened => t.input_open && t.connected == s.connected && t.command_open
                    == s.command_open && t.msg_id == s.msg_id && same_device(s, t) && t.credential
                    == s.credential && match after {
                    AfterInput::Connected => a matches Action::Finish {
                        close_input: false,
                        close_command: false,
                        outcome: Ok(r),
                    } && connected_result(r, s.credential) && t.stage is Idle,
                    AfterInput::Button { frame } => a == (Action::SendInput { text: frame })
                        && t.stage is SendingButton,
                    AfterInput::Refreshed => a matches Action::Finish {
                        close_input: false,
                        close_command: false,
                        outcome: Ok(r),
                    } && plain_ok(r) && t.stage is Idle,
                },
                Event::OpenFailed { reason } => input_failed_spec(
                    s,
                    after,
                    SessionError::InputOpenFailed { reason },
                    t,
                    a,
                ),
                _ => refused(s, t, a, SessionError::Unexpected),
            },
            Stage::SendingButton => match event {
                Event::Sent => a matches Action::Finish {
                    close_input: false,
                    close_command: false,
                    outcome: Ok(r),
                } && plain_ok(r) && t.stage is Idle && same_but_stage(s, t),
                Event::SendFailed { reason } => dropped(s, t) && t.credential == s.credential && a == (
                Action::Finish {
                    close_input: true,
                    close_command: true,
                    outcome: Err(SessionError::ButtonSendFailed { reason }),
                }),
                _ => refused(s, t, a, SessionError::Unexpected),
            },
            Stage::Idle => refused(s, t, a, SessionError::Unexpected),
        },
    }
}

impl Session {
    fn mac_result(mac: Option<String>) -> (r: CommandResult)
        ensures
            mac_ok(r, mac),
    {
        let mut r = CommandResult::ok();
        r.mac = mac;
        r
    }

    fn payload_result(text: String) -> (r: CommandResult)
        ensures
            payload_ok(r, text),
    {
        let mut r = CommandResult::ok();
        r.payload = Some(text);
        r
    }

    /// A new request, taken at rest.
    fn start(&mut self, request: Request) -> (a: Action)
        requires
            old(self).stage is Idle,
            old(self).wf(),
            old(self).msg_id < u64::MAX,
        ensures
            final(self).wf(),
            start_spec(*old(self), request, *final(self), a),
    {
        match request {
            Request::Connect { name, ip, credential, use_ssl } => {
                let close_input = self.input_open;
                let close_command = self.command_open;
                self.connected = false;
                self.input_open = false;
                self.command_open = false;
                self.credential = None;
                self.name = name;
                self.ip = ip;
                self.use_ssl = use_ssl;
                if close_input || close_command {
                    self.stage = Stage::Resetting { credential };
                    Action::Close { input: close_input, command: close_command }
                } else {
                    self.stage = Stage::Opening { credential };
                    let uri = command_uri(self.ip.as_str(), use_ssl);
                    Action::OpenCommand { uri, use_ssl, timeout_secs: CONNECT_TIMEOUT_SECS }
                }
            },
            Request::Disconnect => {
                self.credential = None;
                self.drop_session(Ok(CommandResult::ok()))
            },
            request => {
                if !self.connected {
                    return Action::Finish {
                        close_input: false,
                        close_command: false,
                        outcome: Err(SessionError::NotConnected),
                    };
                }
                match request {
                    Request::Button { name } => {
                        let frame = button_frame(name.as_str());
                        if self.input_open {
                            self.stage = Stage::SendingButton;
                            Action::SendInput { text: frame }
                        } else {
                            self.begin_exchange(
                                Purpose::InputSocket { after: AfterInput::Button { frame } },
                            )
                        }
                    },
                    Request::RefreshInput => {
                        if self.input_open {
                            self.input_open = false;
                            self.stage = Stage::ClosingInput;
                            Action::Close { input: true, command: false }
                        } else {
                            self.begin_exchange(Purpose::InputSocket { after: AfterInput::Refreshed })
                        }
                    },
                    Request::VolumeUp => self.begin_exchange(
                        Purpose::Plain { command: Plain::VolumeUp },
                    ),
                    Request::VolumeDown => self.begin_exchange(
                        Purpose::Plain { command: Plain::VolumeDown },
                    ),
                    Request::SetMute { mute } => self.begin_exchange(
                        Purpose::Plain { command: Plain::SetMute { mute } },
                    ),
                    Request::PowerOff => self.begin_exchange(
                        Purpose::Plain { command: Plain::PowerOff },
                    ),
                    Request::Keepalive => self.begin_exchange(
                        Purpose::Plain { command: Plain::Keepalive },
                    ),
                    Request::FetchMac => self.begin_exchange(Purpose::NetworkInfo),
                    Request::Command { uri, payload } => self.begin_exchange(
                        Purpose::Command { uri, payload },
                    ),
                    Request::NetworkStatus => self.begin_exchange(Purpose::Status { attempt: 0 }),
                    _ => self.finish(Err(SessionError::Unexpected)),
                }
            },
        }
    }

    /// A request on the command channel failed: the session is over.
    fn exchange_failed(&mut self, purpose: Purpose, err: SessionError) -> (a: Action)
        requires
            old(self).stage is Idle,
            old(self).connected,
            old(self).command_open,
        ensures
            exchange_failed_spec(*old(self), purpose, err, *final(self), a),
    {
        match purpose {
            Purpose::InputSocket { after } => match after {
                AfterInput::Connected => {
                    let r = self.connected_outcome();
                    self.drop_session(Ok(r))
                },
                AfterInput::Button { .. } => {
                    let reason = err.message();
                    self.drop_session(Err(SessionError::InputChannel { reason }))
                },
                AfterInput::Refreshed => self.drop_session(Err(err)),
            },
            Purpose::NetworkStatus { wifi, wired, .. } => {
                let mac = select_mac(wifi, wired, None);
                self.drop_session(Ok(Session::mac_result(mac)))
            },
            _ => self.drop_session(Err(err)),
        }
    }

    /// The input channel could not be set up; the command channel is fine.
    fn input_setup_failed(&mut self, after: AfterInput, err: SessionError) -> (a: Action)
        requires
            old(self).stage is Idle,
            old(self).connected,
            old(self).command_open,
            !old(self).input_open,
        ensures
            final(self).wf(),
            input_failed_spec(*old(self), after, err, *final(self), a),
    {
        match after {
            AfterInput::Connected => {
                let r = self.connected_outcome();
                self.finish(Ok(r))
            },
            AfterInput::Button { .. } => {
                let reason = err.message();
                self.finish(Err(SessionError::InputChannel { reason }))
            },
            AfterInput::Refreshed => self.finish(Err(err)),
        }
    }

    /// The reply to a request arrived.
    fn exchange_done(&mut self, purpose: Purpose, reply: Reply) -> (a: Action)
        requires
            old(self).stage is Idle,
            old(self).connected,
            old(self).command_open,
            purpose is InputSocket ==> !old(self).input_open,
            old(self).msg_id < u64::MAX,
        ensures
            final(self).wf(),
            reply_spec(*old(self), purpose, reply, *final(self), a),
    {
        match purpose {
            Purpose::InputSocket { after } => match reply.socket_path {
                Some(uri) => {
                    self.stage = Stage::OpeningInput { after };
                    Action::OpenInput { uri, use_ssl: self.use_ssl }
                },
                None => self.input_setup_failed(after, SessionError::NoSocketPath),
            },
            Purpose::Plain { command } => match command {
                Plain::PowerOff => self.drop_session(
                    Ok(CommandResult::ok_with_message("TV powered off")),
                ),
                _ => self.finish(Ok(CommandResult::ok())),
            },
            Purpose::NetworkInfo => self.begin_exchange(
                Purpose::NetworkStatus { attempt: 0, wifi: reply.wifi_mac, wired: reply.wired_mac },
            ),
            Purpose::NetworkStatus { attempt, wifi, wired } => {
                if !reply.has_error {
                    let mac = select_mac(wifi, wired, Some(&reply));
                    self.finish(Ok(Session::mac_result(mac)))
                } else if attempt < 2 {
                    self.begin_exchange(
                        Purpose::NetworkStatus { attempt: attempt + 1, wifi, wired },
                    )
                } else {
                    let mac = select_mac(wifi, wired, None);
                    self.finish(Ok(Session::mac_result(mac)))
                }
            },
            Purpose::Command { .. } => self.finish(Ok(Session::payload_result(reply.text))),
            Purpose::Status { attempt } => {
                if !reply.has_error {
                    self.finish(Ok(Session::payload_result(reply.text)))
                } else if attempt < 2 {
                    self.begin_exchange(Purpose::Status { attempt: attempt + 1 })
                } else {
                    let reason = match reply.error {
                        Some(e) => e,
                        None => String::from_str("unknown"),
                    };
                    self.finish(Err(SessionError::StatusFailed { reason }))
                }
            },
        }
    }

    /// An I/O completion, taken in `stage`.
    fn on_event(&mut self, stage: Stage, event: Event) -> (a: Action)
        requires
            old(self).stage is Idle,
            !(event is Start),
            (Session { stage, ..*old(self) }).wf(),
            old(self).msg_id < u64::MAX,
        ensures
            final(self).wf(),
            next(Session { stage, ..*old(self) }, event, *final(self), a),
    {
        match stage {
            Stage::Resetting { credential } => match event {
                Event::Closed => {
                    self.stage = Stage::Opening { credential };
                    let uri = command_uri(self.ip.as_str(), self.use_ssl);
                    Action::OpenCommand { uri, use_ssl: self.use_ssl, timeout_secs: CONNECT_TIMEOUT_SECS }
                },
                _ => self.unexpected(Stage::Resetting { credential }),
            },
            Stage::Opening { credential } => match event {
                Event::Opened => {
                    self.command_open = true;
                    let text = match &credential {
                        Some(k) => handshake_payload(Some(k.as_str())),
                        None => handshake_payload(None),
                    };
                    self.stage = Stage::Registering { with_credential: credential.is_some() };
                    Action::SendCommand { text }
                },
                Event::OpenFailed { reason } => self.finish(
                    Err(SessionError::ConnectFailed { reason }),
                ),
                Event::TimedOut => self.finish(Err(SessionError::ConnectTimeout)),
                _ => self.unexpected(Stage::Opening { credential }),
            },
            Stage::Registering { with_credential } => match event {
                Event::Sent => {
                    self.stage = Stage::AwaitingRegistration { with_credential };
                    Action::Receive {
                        timeout_secs: if with_credential {
                            SHORT_HANDSHAKE_SECS
                        } else {
                            LONG_HANDSHAKE_SECS
                        },
                    }
                },
                Event::SendFailed { reason } => self.drop_session(
                    Err(SessionError::HandshakeSendFailed { reason }),
                ),
                Event::ReadFailed { reason } => self.drop_session(
                    Err(SessionError::ChannelError { reason }),
                ),
                Event::StreamEnded => self.drop_session(Err(SessionError::ChannelClosed)),
                Event::TimedOut => self.drop_session(Err(SessionError::HandshakeTimeout)),
                _ => self.unexpected(Stage::Registering { with_credential }),
            },
            Stage::AwaitingRegistration { with_credential } => match event {
                Event::Received { reply } => match reply {
                    Some(reply) => {
                        match classify_registration(reply) {
                            Registration::Pending => {
                                self.stage = Stage::AwaitingRegistration { with_credential };
                                Action::ReceiveMore
                            },
                            Registration::Registered { client_key } => {
                                self.connected = true;
                                self.credential = client_key;
                                self.begin_exchange(
                                    Purpose::InputSocket { after: AfterInput::Connected },
                                )
                            },
                            Registration::Rejected { reason } => self.drop_session(
                                Err(SessionError::Rejected { reason }),
                            ),
                        }
                    },
                    None => {
                        self.stage = Stage::AwaitingRegistration { with_credential };
                        Action::ReceiveMore
                    },
                },
                Event::SendFailed { reason } => self.drop_session(
                    Err(SessionError::ChannelError { reason }),
                ),
                Event::ReadFailed { reason } => self.drop_session(
                    Err(SessionError::ChannelError { reason }),
                ),
                Event::StreamEnded => self.drop_session(Err(SessionError::ChannelClosed)),
                Event::TimedOut => self.drop_session(Err(SessionError::HandshakeTimeout)),
                _ => self.unexpected(Stage::AwaitingRegistration { with_credential }),
            },
            Stage::Requesting { purpose } => match event {
                Event::Sent => {
                    self.stage = Stage::AwaitingReply { purpose };
                    Action::Receive { timeout_secs: RESPONSE_TIMEOUT_SECS }
                },
                Event::SendFailed { reason } => self.exchange_failed(
                    purpose,
                    SessionError::SendFailed { reason },
                ),
                Event::ReadFailed { reason } => self.exchange_failed(
                    purpose,
                    SessionError::ChannelError { reason },
                ),
                Event::StreamEnded => self.exchange_failed(purpose, SessionError::ChannelClosed),
                Event::TimedOut => self.exchange_failed(purpose, SessionError::ResponseTimeout),
                _ => self.unexpected(Stage::Requesting { purpose }),
            },
            Stage::AwaitingReply { purpose } => match event {
                Event::Received { reply } => match reply {
                    Some(reply) => self.exchange_done(purpose, reply),
                    None => {
                        self.stage = Stage::AwaitingReply { purpose };
                        Action::ReceiveMore
                    },
                },
                Event::SendFailed { reason } => self.exchange_failed(
                    purpose,
                    SessionError::SendFailed { reason },
                ),
                Event::ReadFailed { reason } => self.exchange_failed(
                    purpose,
                    SessionError::ChannelError { reason },
                ),
                Event::StreamEnded => self.exchange_failed(purpose, SessionError::ChannelClosed),
                Event::TimedOut => self.exchange_failed(purpose, SessionError::ResponseTimeout),
                _ => self.unexpected(Stage::AwaitingReply { purpose }),
            },
            Stage::ClosingInput => match event {
                Event::Closed => self.begin_exchange(
                    Purpose::InputSocket { after: AfterInput::Refreshed },
                ),
                _ => self.unexpected(Stage::ClosingInput),
            },
            Stage::OpeningInput { after } => match event {
                Event::Opened => {
                    self.input_open = true;
                    match after {
                        AfterInput::Connected => {
                            let r = self.connected_outcome();
                            self.finish(Ok(r))
                        },
                        AfterInput::Button { frame } => {
                            self.stage = Stage::SendingButton;
                            Action::SendInput { text: frame }
                        },
                        AfterInput::Refreshed => self.finish(Ok(CommandResult::ok())),
                    }
                },
                Event::OpenFailed { reason } => self.input_setup_failed(
                    after,
                    SessionError::InputOpenFailed { reason },
                ),
                _ => self.unexpected(Stage::OpeningInput { after }),
            },
            Stage::SendingButton => match event {
                Event::Sent => self.finish(Ok(CommandResult::ok())),
                Event::SendFailed { reason } => self.drop_session(
                    Err(SessionError::ButtonSendFailed { reason }),
                ),
                _ => self.unexpected(Stage::SendingButton),
            },
            Stage::Idle => self.unexpected(Stage::Idle),
        }
    }

    /// Refuses an event that `stage` does not expect; nothing changes.
    fn unexpected(&mut self, stage: Stage) -> (a: Action)
        requires
            old(self).stage is Idle,
        ensures
            *final(self) == (Session { stage, ..*old(self) }),
            a == (Action::Finish {
                close_input: false,
                close_command: false,
                outcome: Err(SessionError::Unexpected),
            }),
    {
        self.stage = stage;
        Action::Finish { close_input: false, close_command: false, outcome: Err(SessionError::Unexpected) }
    }

    /// Takes one event: updates the session and says what to do next.
    pub fn step(&mut self, event: Event) -> (a: Action)
        requires
            old(self).wf(),
            old(self).msg_id < u64::MAX,
        ensures
            final(self).wf(),
            next(*old(self), event, *final(self), a),
    {
        let mut stage = Stage::Idle;
        core::mem::swap(&mut self.stage, &mut stage);
        match event {
            Event::Start { request } => match stage {
                Stage::Idle => self.start(request),
                stage => {
                    self.stage = stage;
                    Action::Finish {
                        close_input: false,
                        close_command: false,
                        outcome: Err(SessionError::Busy),
                    }
                },
            },
            event => self.on_event(stage, event),
        }
    }
}

/// A failed write, on the command channel or on the input channel, leaves
/// the session disconnected; a button asked for afterwards fails at once as
/// not connected, with no I/O and nothing changed.
pub proof fn lemma_write_failure_disconnects(
    s: Session,
    reason: String,
    t: Session,
    a: Action,
    name: String,
    t2: Session,
    a2: Action,
)
    requires
        s.wf(),
        s.stage is Requesting || s.stage is SendingButton,
        next(s, Event::SendFailed { reason }, t, a),
        next(t, Event::Start { request: Request::Button { name } }, t2, a2),
    ensures
        !t.connected,
        !t.command_open && !t.input_open,
        a2 == (Action::Finish {
            close_input: false,
            close_command: false,
            outcome: Err(SessionError::NotConnected),
        }),
        t2 == t,
{
}

/// A failure of the input channel alone (the refresh cannot open it) leaves
/// the session connected; the next button reopens the input channel through
/// the command channel and is then sent.
pub proof fn lemma_input_failure_recovers(
    s: Session,
    reason: String,
    t1: Session,
    a1: Action,
    name: String,
    t2: Session,
    a2: Action,
    t3: Session,
    a3: Action,
    reply: Reply,
    t4: Session,
    a4: Action,
    t5: Session,
    a5: Action,
    t6: Session,
    a6: Action,
)
    requires
        s.wf(),
        s.stage == (Stage::OpeningInput { after: AfterInput::Refreshed }),
        next(s, Event::OpenFailed { reason }, t1, a1),
        next(t1, Event::Start { request: Request::Button { name } }, t2, a2),
        next(t2, Event::Sent, t3, a3),
        next(t3, Event::Received { reply: Some(reply) }, t4, a4),
        reply.socket_path is Some,
        next(t4, Event::Opened, t5, a5),
        next(t5, Event::Sent, t6, a6),
    ensures
        t1.connected && t1.command_open && !t1.input_open,
        a2 matches Action::SendCommand { text } && text@ == request_of(
            t2.msg_id as nat,
            INPUT_SOCKET@,
            "{}"@,
        ),
        a4 matches Action::OpenInput { uri, .. } && Some(uri) == reply.socket_path,
        a5 matches Action::SendInput { text } && text@ == button_frame_of(name@),
        a6 matches Action::Finish { outcome: Ok(r), .. } && r.success,
        t6.connected && t6.input_open && t6.idle(),
{
}

/// Registration waits a short while when a credential is given and long
/// enough for the user's confirmation when not; a `registered` reply
/// connects at once, with no other exchange, and silence until the bound
/// fails the connect as a handshake timeout.
pub proof fn lemma_handshake_bounds(
    s: Session,
    credential: Option<String>,
    t1: Session,
    a1: Action,
    t2: Session,
    a2: Action,
    reply: Reply,
    t3: Session,
    a3: Action,
    t4: Session,
    a4: Action,
)
    requires
        s.wf(),
        s.stage == (Stage::Opening { credential }),
        next(s, Event::Opened, t1, a1),
        next(t1, Event::Sent, t2, a2),
        next(t2, Event::Received { reply: Some(reply) }, t3, a3),
        next(t2, Event::TimedOut, t4, a4),
    ensures
        a1 matches Action::SendCommand { text } && text@ == handshake_of(opt_text(credential)),
        a2 == (Action::Receive {
            timeout_secs: if credential is Some {
                SHORT_HANDSHAKE_SECS
            } else {
                LONG_HANDSHAKE_SECS
            },
        }),
        text_is(reply.kind, "registered"@) ==> t3.connected && t3.credential == reply.client_key,
        a4 matches Action::Finish { outcome: Err(SessionError::HandshakeTimeout), .. },
        !t4.connected && !t4.command_open,
{
}

/// Request ids are monotonic: no event moves the counter back, and an event
/// moves it at all only to write a request envelope carrying the next id.
pub proof fn lemma_request_ids_monotonic(s: Session, e: Event, t: Session, a: Action)
    requires
        s.wf(),
        next(s, e, t, a),
    ensures
        t.msg_id == s.msg_id || t.msg_id == s.msg_id + 1,
        t.msg_id == s.msg_id + 1 ==> (a matches Action::SendCommand { text } && t.stage matches Stage::Requesting { purpose }
            && text@ == request_of(t.msg_id as nat, purpose_uri(purpose), purpose_payload(purpose))),
{
}

/// When a button finds the input channel missing and it cannot be set up
/// (the device gives no socket path, or the socket does not open), the
/// button fails but the session stays connected with its command channel.
pub proof fn lemma_button_input_failure_keeps_session(
    frame: String,
    s: Session,
    reason: String,
    t: Session,
    a: Action,
    s2: Session,
    reply: Reply,
    t2: Session,
    a2: Action,
)
    requires
        s.wf(),
        s.stage == (Stage::OpeningInput { after: AfterInput::Button { frame } }),
        next(s, Event::OpenFailed { reason }, t, a),
        s2.wf(),
        s2.stage == (Stage::AwaitingReply {
            purpose: Purpose::InputSocket { after: AfterInput::Button { frame } },
        }),
        reply.socket_path is None,
        next(s2, Event::Received { reply: Some(reply) }, t2, a2),
    ensures
        t.connected && t.command_open && !t.input_open && t.idle(),
        a matches Action::Finish {
            close_input: false,
            close_command: false,
            outcome: Err(SessionError::InputChannel { .. }),
        },
        t2.connected && t2.command_open && !t2.input_open && t2.idle(),
        a2 matches Action::Finish {
            close_input: false,
            close_command: false,
            outcome: Err(SessionError::InputChannel { reason: r }),
        } && r@ == error_message(SessionError::NoSocketPath),
{
}

/// Once the device registers, the connect reports success with the
/// credential, even if the device then stays silent on the input-channel
/// request; that silence ends the session, as every command-channel timeout
/// does.
pub proof fn lemma_registered_connect_succeeds(
    s: Session,
    reply: Reply,
    t1: Session,
    a1: Action,
    t2: Session,
    a2: Action,
    t3: Session,
    a3: Action,
)
    requires
        s.wf(),
        s.stage is AwaitingRegistration,
        text_is(reply.kind, "registered"@),
        next(s, Event::Received { reply: Some(reply) }, t1, a1),
        next(t1, Event::Sent, t2, a2),
        next(t2, Event::TimedOut, t3, a3),
    ensures
        t1.connected,
        a3 matches Action::Finish { outcome: Ok(r), .. } && connected_result(r, reply.client_key),
        !t3.connected,
{
}

} // verus!
