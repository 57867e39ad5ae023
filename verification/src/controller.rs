//! The life of one connection, and what each of its events does to a room.

use vstd::prelude::*;
use crate::addressee::{Addressee, AddresseeView};
use crate::chat_room::{deliveries, ChatRoom, Delivery};
use crate::model::{request, ConnectionEventView, ConnectionStateView};
use crate::ws_message::{WebSocketMessage, WebSocketMessageType, WebSocketMessageView};

verus! {

/// The view of an optional envelope.
pub open spec fn frame_view(frame: Option<WebSocketMessage>) -> Option<WebSocketMessageView> {
    match frame {
        Some(envelope) => Some(envelope@),
        None => None,
    }
}

/// Acts on one inbound frame of connection `connection_id`; `None` stands
/// for a frame that could not be read as an envelope. A chat line is relayed
/// to the room as the sender supplied it. A rename is carried out, announced,
/// and followed by the roster. Everything else is dropped without a trace.
pub fn handle_incoming_message(
    frame: Option<WebSocketMessage>,
    room: &mut ChatRoom,
    connection_id: usize,
) -> (sent: Vec<Delivery>)
    ensures
        old(room)@.handled(frame_view(frame), connection_id, final(room)@, deliveries(sent@)),
        request(frame_view(frame)) is Nothing ==> final(room)@ == old(room)@ && sent@.len() == 0,
        old(room)@.wf() ==> final(room)@.wf(),
{
    let mut sent: Vec<Delivery> = Vec::new();
    if let Some(ws_message) = frame {
        match ws_message.message_type {
            WebSocketMessageType::NewMessage => {
                if let Some(ws_msg) = ws_message.message {
                    sent.push(room.broadcast(ws_msg));
                }
            },
            WebSocketMessageType::ChangeUserName => {
                if let Some(ws_user_name) = ws_message.user_name {
                    if let Some(notice) = room.change_user_name(ws_user_name, connection_id) {
                        sent.push(notice);
                        sent.push(room.broadcast_users_list());
                    }
                }
            },
            WebSocketMessageType::UserList => {},
        }
    }
    sent
}

/// Where a connection stands in its life.
#[derive(Debug)]
pub enum ConnectionState {
    /// The session credential is being resolved.
    Connecting,
    /// The identity is known; the channel is not open yet.
    Joined { addressee: Addressee },
    /// The connection is in the room under `connection_id`.
    Active { connection_id: usize },
    /// The end: refused, or gone.
    Disconnected,
}

impl View for ConnectionState {
    type V = ConnectionStateView;

    open spec fn view(&self) -> ConnectionStateView {
        match self {
            ConnectionState::Connecting => ConnectionStateView::Connecting,
            ConnectionState::Joined { addressee } => ConnectionStateView::Joined {
                addressee: addressee@,
            },
            ConnectionState::Active { connection_id } => ConnectionStateView::Active {
                connection_id: *connection_id,
            },
            ConnectionState::Disconnected => ConnectionStateView::Disconnected,
        }
    }
}

/// What can happen to a connection.
#[derive(Debug)]
pub enum ConnectionEvent {
    /// The identity resolver answered: a profile, or none.
    Resolved(Option<Addressee>),
    /// The channel is open.
    Opened,
    /// A frame came in; `None` if it could not be read as an envelope.
    Frame(Option<WebSocketMessage>),
    /// The stream ended or failed.
    Closed,
}

impl View for ConnectionEvent {
    type V = ConnectionEventView;

    open spec fn view(&self) -> ConnectionEventView {
        match self {
            ConnectionEvent::Resolved(Some(addressee)) => ConnectionEventView::Resolved(
                Some(addressee@),
            ),
            ConnectionEvent::Resolved(None) => ConnectionEventView::Resolved(None),
            ConnectionEvent::Opened => ConnectionEventView::Opened,
            ConnectionEvent::Frame(frame) => ConnectionEventView::Frame(frame_view(*frame)),
            ConnectionEvent::Closed => ConnectionEventView::Closed,
        }
    }
}

/// Takes a connection to `room` one step further: returns its next state
/// and what is to be sent, and changes the room as the step demands.
pub fn advance(room: &mut ChatRoom, connection: ConnectionState, event: ConnectionEvent) -> (outcome:
    (ConnectionState, Vec<Delivery>))
    ensures
        old(room)@.step(connection@, event@, final(room)@, outcome.0@, deliveries(outcome.1@)),
        old(room)@.wf() ==> final(room)@.wf(),
{
    match (connection, event) {
        (ConnectionState::Connecting, ConnectionEvent::Resolved(Some(addressee))) => (
            ConnectionState::Joined { addressee },
            Vec::new(),
        ),
        (ConnectionState::Connecting, ConnectionEvent::Resolved(None)) => (
            ConnectionState::Disconnected,
            Vec::new(),
        ),
        (ConnectionState::Joined { addressee }, ConnectionEvent::Opened) => {
            if room.has_room() {
                let (connection_id, sent) = room.join(addressee);
                (ConnectionState::Active { connection_id }, sent)
            } else {
                (ConnectionState::Disconnected, Vec::new())
            }
        },
        (ConnectionState::Active { connection_id }, ConnectionEvent::Frame(frame)) => {
            let sent = handle_incoming_message(frame, room, connection_id);
            (ConnectionState::Active { connection_id }, sent)
        },
        (ConnectionState::Active { connection_id }, ConnectionEvent::Closed) => {
            room.drop_connection(connection_id);
            let mut sent: Vec<Delivery> = Vec::new();
            sent.push(room.broadcast_users_list());
            (ConnectionState::Disconnected, sent)
        },
        (_, ConnectionEvent::Closed) => (ConnectionState::Disconnected, Vec::new()),
        (connection, _) => (connection, Vec::new()),
    }
}

} // verus!
