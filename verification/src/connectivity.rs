//! qlog connectivity events: the records a QUIC endpoint logs about
//! listening, connection start and close, connection ids, the spin bit,
//! connection state, MTU and congestion-controller state changes.
use vstd::prelude::*;

verus! {

/// Hex-encoded bytes, as qlog writes connection ids.
pub type Bytes = String;

/// Numeric code of a transport or crypto error that closed a connection.
pub type ConnectionErrorCode = u64;

/// Numeric code of an application error that closed a connection.
pub type ApplicationErrorCode = u64;

/// Which side of the connection an event concerns.
#[derive(Clone, PartialEq, Eq, Debug)]
pub enum TransportOwner {
    Local,
    Remote,
}

/// The states a connection passes through.
#[derive(Clone, PartialEq, Eq, Debug)]
pub enum ConnectionState {
    Attempted,
    PeerValidated,
    HandshakeStarted,
    EarlyWrite,
    HandshakeCompleted,
    HandshakeConfirmed,
    Closing,
    Draining,
    Closed,
}

/// The kinds of connectivity event.
#[derive(Clone, Copy, PartialEq, Eq, Debug)]
pub enum ConnectivityEventType {
    ServerListening,
    ConnectionStarted,
    ConnectionClosed,
    ConnectionIdUpdated,
    SpinBitUpdated,
    ConnectionStateUpdated,
    MtuUpdated,
    CubicStateUpdate,
    BbrStateUpdate,
}

/// What made a connection close.
#[derive(Clone, Copy, PartialEq, Eq, Debug)]
pub enum ConnectionClosedTrigger {
    Clean,
    HandshakeTimeout,
    IdleTimeout,
    Error,
    StatelessReset,
    VersionMismatch,
    Application,
}

/// A server started listening.
#[derive(Clone, PartialEq, Eq, Debug)]
pub struct ServerListening {
    /// IPv4 address, human-readable or as bytes.
    pub ip_v4: Option<String>,
    /// IPv6 address, human-readable or as bytes.
    pub ip_v6: Option<String>,
    pub port_v4: Option<u16>,
    pub port_v6: Option<u16>,
    retry_required: Option<bool>,
}

impl ServerListening {
    /// Creates the event.
    pub fn new(
        ip_v4: Option<String>,
        ip_v6: Option<String>,
        port_v4: Option<u16>,
        port_v6: Option<u16>,
        retry_required: Option<bool>,
    ) -> (e: ServerListening)
        ensures
            e.contents() == (ip_v4, ip_v6, port_v4, port_v6, retry_required),
    {
        ServerListening { ip_v4, ip_v6, port_v4, port_v6, retry_required }
    }

    /// The event's fields, in declaration order.
    pub closed spec fn contents(&self) -> (
        Option<String>,
        Option<String>,
        Option<u16>,
        Option<u16>,
        Option<bool>,
    ) {
        (self.ip_v4, self.ip_v6, self.port_v4, self.port_v6, self.retry_required)
    }

    /// Whether the server requires a retry, if it said.
    pub fn retry_required(&self) -> (r: Option<bool>)
        ensures
            r == self.contents().4,
    {
        self.retry_required
    }
}

/// A connection was started.
#[derive(Clone, PartialEq, Eq, Debug)]
pub struct ConnectionStarted {
    /// "v4" or "v6".
    pub ip_version: Option<String>,
    /// Source address, human-readable or as bytes.
    pub src_ip: String,
    /// Destination address, human-readable or as bytes.
    pub dst_ip: String,
    pub protocol: Option<String>,
    pub src_port: Option<u16>,
    pub dst_port: Option<u16>,
    pub src_cid: Option<Bytes>,
    pub dst_cid: Option<Bytes>,
}

/// A connection was closed.
#[derive(Clone, PartialEq, Eq, Debug)]
pub struct ConnectionClosed {
    pub owner: Option<TransportOwner>,
    pub connection_code: Option<ConnectionErrorCode>,
    pub application_code: Option<ApplicationErrorCode>,
    pub internal_code: Option<u32>,
    pub reason: Option<String>,
    pub trigger: Option<ConnectionClosedTrigger>,
}

/// A connection id changed.
#[derive(Clone, PartialEq, Eq, Debug)]
pub struct ConnectionIdUpdated {
    pub owner: Option<TransportOwner>,
    pub old: Option<Bytes>,
    pub new: Option<Bytes>,
}

/// The spin bit changed.
#[derive(Clone, PartialEq, Eq, Debug)]
pub struct SpinBitUpdated {
    pub state: bool,
}

/// The connection moved to another state.
#[derive(Clone, PartialEq, Eq, Debug)]
pub struct ConnectionStateUpdated {
    pub old: Option<ConnectionState>,
    pub new: ConnectionState,
}

/// The path MTU changed.
#[derive(Clone, PartialEq, Eq, Debug)]
pub struct MtuUpdated {
    pub old: Option<u16>,
    pub new: u16,
    pub done: Option<bool>,
}

/// Variables of the CUBIC controller at a state change.
#[derive(Clone, PartialEq, Debug)]
pub struct CubicStateUpdateData {
    pub cwnd: u64,
    pub ssthresh: u64,
    pub w_max: u64,
    pub hystart_window_end: Option<u64>,
    pub hystart_last_min_rtt: Option<u128>,
    pub hystart_current_min_rtt: Option<u128>,
    pub hystart_rtt_sample_count: Option<usize>,
    pub hystart_in_css: Option<bool>,
    pub hystart_css_round_count: Option<usize>,
}

/// The CUBIC controller of a path changed state.
#[derive(Clone, PartialEq, Debug)]
pub struct CubicStateUpdate {
    pub path_id: u64,
    pub old_state: String,
    pub new_state: String,
    pub trigger: String,
    pub data: CubicStateUpdateData,
}

} // verus!
