//! The decisions of the event subscription socket: how each client message is answered,
//! when the client is dropped for missing heartbeats, and which chain events are
//! forwarded.

use vstd::prelude::*;

verus! {

/// How often, in milliseconds, the server checks the client and pings it.
pub const HEARTBEAT_INTERVAL_MS: u64 = 5000;

/// How long, in milliseconds, the client may stay silent before it is dropped.
pub const CLIENT_TIMEOUT_MS: u64 = 10000;

/// What the socket remembers of its client: when it last sent a ping or a pong, in
/// milliseconds since the socket opened.
#[derive(Clone, Copy, Debug)]
pub struct WsSession {
    pub last_client_heartbeat: u64,
}

impl WsSession {
    /// A session opened at `now`.
    pub fn new(now: u64) -> (r: WsSession)
        ensures
            r.last_client_heartbeat == now,
    {
        WsSession { last_client_heartbeat: now }
    }
}

/// Why a socket is closed: a close code and an optional description.
#[derive(Clone, Debug)]
pub struct CloseReason {
    pub code: u16,
    pub description: Option<String>,
}

/// A message from the client, or a protocol error.
#[derive(Debug)]
pub enum WsMessage {
    Ping(Vec<u8>),
    Pong(Vec<u8>),
    Text(String),
    Binary(Vec<u8>),
    Close(Option<CloseReason>),
    Continuation,
    Nop,
    ProtocolError,
}

/// What the server sends back, and whether it stops the socket afterwards.
#[derive(Debug)]
pub enum WsReply {
    Pong(Vec<u8>),
    Text(String),
    Binary(Vec<u8>),
    Close(Option<CloseReason>),
    Nothing,
}

/// Whether the server stops the socket after answering a message: on a close, on a
/// protocol error and on any message kind it does not handle.
pub open spec fn stops_on(msg: WsMessage) -> bool {
    !(msg is Ping || msg is Pong || msg is Text || msg is Binary)
}

/// Answers a client message: a ping is answered with a pong of the same payload and a
/// pong is noted, both renewing the heartbeat at `now`; text is echoed with the prefix
/// `echo: `, binary sent back, a close answered with a close of the same reason.
pub fn handle_message(session: &mut WsSession, msg: WsMessage, now: u64) -> (r: (WsReply, bool))
    ensures
        r.1 == stops_on(msg),
        (msg is Ping || msg is Pong) ==> final(session).last_client_heartbeat == now,
        !(msg is Ping || msg is Pong) ==> *final(session) == *old(session),
        match msg {
            WsMessage::Ping(p) => r.0 == WsReply::Pong(p),
            WsMessage::Text(t) => r.0 matches WsReply::Text(e) && e@ == "echo: "@ + t@,
            WsMessage::Binary(b) => r.0 == WsReply::Binary(b),
            WsMessage::Close(reason) => r.0 == WsReply::Close(reason),
            _ => r.0 is Nothing,
        },
{
    match msg {
        WsMessage::Ping(payload) => {
            session.last_client_heartbeat = now;
            (WsReply::Pong(payload), false)
        },
        WsMessage::Pong(_) => {
            session.last_client_heartbeat = now;
            (WsReply::Nothing, false)
        },
        WsMessage::Text(text) => {
            let mut echo = String::from_str("echo: ");
            echo.append(text.as_str());
            (WsReply::Text(echo), false)
        },
        WsMessage::Binary(bin) => (WsReply::Binary(bin), false),
        WsMessage::Close(reason) => (WsReply::Close(reason), true),
        _ => (WsReply::Nothing, true),
    }
}

/// Whether a heartbeat check at `now` finds the client silent for longer than the
/// timeout since its last heartbeat (a `now` before it counts as no time passed).
pub open spec fn heartbeat_expired(last: u64, now: u64) -> bool {
    now > last && now - last > CLIENT_TIMEOUT_MS
}

/// The periodic heartbeat check: `true` to drop the client, `false` to ping it.
pub fn heartbeat_check(session: &WsSession, now: u64) -> (r: bool)
    ensures
        r == heartbeat_expired(session.last_client_heartbeat, now),
{
    let elapsed = if now > session.last_client_heartbeat {
        now - session.last_client_heartbeat
    } else {
        0
    };
    elapsed > CLIENT_TIMEOUT_MS
}

/// A client that answers within the timeout keeps its socket: after a ping or pong at
/// `t`, no heartbeat check up to `t + CLIENT_TIMEOUT_MS` drops it, and every later
/// check does.
pub proof fn lemma_heartbeat_keeps_live_client(session: WsSession, t: u64, now: u64)
    requires
        session.last_client_heartbeat == t,
    ensures
        heartbeat_expired(session.last_client_heartbeat, now) <==> now > t + CLIENT_TIMEOUT_MS,
{
}

/// The pallets whose events the socket forwards, and the others.
#[derive(Clone, Copy, Debug, PartialEq, Eq, Structural)]
pub enum EventPallet {
    Balances,
    Asset,
    Bag,
    Other,
}

/// Whether an event of this pallet is forwarded to the client.
pub fn forwards_event(pallet: EventPallet) -> (r: bool)
    ensures
        r <==> pallet != EventPallet::Other,
{
    match pallet {
        EventPallet::Balances | EventPallet::Asset | EventPallet::Bag => true,
        EventPallet::Other => false,
    }
}

} // verus!
