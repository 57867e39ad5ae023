//! The mathematical model of a room: who is in it, how the three room
//! operations change it, and which deliveries each event calls for.

use vstd::prelude::*;
use crate::addressee::AddresseeView;
use crate::ws_message::{ChatMessageView, WebSocketMessageType, WebSocketMessageView};

verus! {

/// One envelope and the connections it goes to, in the order of sending.
pub struct DeliveryView {
    pub recipients: Seq<usize>,
    pub envelope: WebSocketMessageView,
}

/// `order` names every participant of `members` exactly once.
pub open spec fn roll_call(members: Map<usize, AddresseeView>, order: Seq<usize>) -> bool {
    order.no_duplicates() && order.to_set() == members.dom()
}

/// The ids of `order` that are in `members`, in the same order.
pub open spec fn present(members: Map<usize, AddresseeView>, order: Seq<usize>) -> Seq<usize> {
    order.filter(|id: usize| members.contains_key(id))
}

/// A roll call holds participants only.
pub proof fn lemma_roll_call_present(members: Map<usize, AddresseeView>, order: Seq<usize>)
    requires
        forall|at: int| 0 <= at < order.len() ==> members.contains_key(#[trigger] order[at]),
    ensures
        present(members, order) == order,
    decreases order.len(),
{
    reveal(Seq::filter);
    if order.len() > 0 {
        lemma_roll_call_present(members, order.drop_last());
        assert(order.drop_last().push(order.last()) =~= order);
    }
}

/// The display names of the connections in `order`, one for one.
pub open spec fn names_in(members: Map<usize, AddresseeView>, order: Seq<usize>) -> Seq<
    Seq<char>,
> {
    Seq::new(order.len(), |at: int| members[order[at]].user_name)
}

/// Author of the messages that the room itself writes.
pub open spec fn system_author() -> Seq<char> {
    "System"@
}

/// Text of the message that announces a rename.
pub open spec fn rename_text(old_name: Seq<char>, new_name: Seq<char>) -> Seq<char> {
    "User "@ + old_name + " changed user name to "@ + new_name
}

/// Mathematical value of a room.
pub struct RoomView {
    pub public: bool,
    pub name: Seq<char>,
    /// The participants, by connection id.
    pub members: Map<usize, AddresseeView>,
    /// The connection id that the next participant gets.
    pub next_id: usize,
}

impl RoomView {
    /// A room that nobody has joined yet.
    pub open spec fn empty(name: Seq<char>, public: bool) -> RoomView {
        RoomView { public, name, members: Map::empty(), next_id: 0 }
    }

    /// Finitely many participants, each under an id that was handed out.
    pub open spec fn wf(self) -> bool {
        &&& self.members.dom().finite()
        &&& forall|id: usize| self.members.contains_key(id) ==> id < self.next_id
    }

    /// The counter has an id left to hand out.
    pub open spec fn has_room(self) -> bool {
        self.next_id < usize::MAX
    }

    /// Number of live participants.
    pub open spec fn count(self) -> nat {
        self.members.len()
    }

    /// The room after `who` joined under the next id.
    pub open spec fn join(self, who: AddresseeView) -> RoomView {
        RoomView {
            members: self.members.insert(self.next_id, who),
            next_id: (self.next_id + 1) as usize,
            ..self
        }
    }

    /// The room after connection `id` left; the same room if it was not there.
    pub open spec fn leave(self, id: usize) -> RoomView {
        RoomView { members: self.members.remove(id), ..self }
    }

    /// The room after connection `id` took `new_name`; the same room if it
    /// was not there.
    pub open spec fn rename(self, id: usize, new_name: Seq<char>) -> RoomView {
        if self.members.contains_key(id) {
            RoomView {
                members: self.members.insert(id, self.members[id].renamed(new_name)),
                ..self
            }
        } else {
            self
        }
    }

    /// `delivery` is a roster broadcast: it goes to every participant once
    /// and lists their display names in the order of its recipients.
    pub open spec fn roster(self, delivery: DeliveryView) -> bool {
        &&& roll_call(self.members, delivery.recipients)
        &&& delivery.envelope == WebSocketMessageView::user_list(
            names_in(self.members, delivery.recipients),
        )
    }

    /// `delivery` carries `chat` to every participant once.
    pub open spec fn chat(self, chat: ChatMessageView, delivery: DeliveryView) -> bool {
        &&& roll_call(self.members, delivery.recipients)
        &&& delivery.envelope == WebSocketMessageView::new_message(chat)
    }

    /// `delivery` tells connection `id`, and nobody else, its display name.
    pub open spec fn own_name(self, id: usize, delivery: DeliveryView) -> bool {
        &&& self.members.contains_key(id)
        &&& delivery.recipients == seq![id]
        &&& delivery.envelope == WebSocketMessageView::change_user_name(
            self.members[id].user_name,
        )
    }

    /// `delivery` announces to every participant once, in the room's own
    /// voice and as written at `at`, that `old_name` became `new_name`.
    pub open spec fn rename_notice_at(
        self,
        old_name: Seq<char>,
        new_name: Seq<char>,
        at: chrono::NaiveDateTime,
        delivery: DeliveryView,
    ) -> bool {
        &&& roll_call(self.members, delivery.recipients)
        &&& delivery.envelope == WebSocketMessageView::new_message(
            ChatMessageView {
                message: rename_text(old_name, new_name),
                author: system_author(),
                created_at: at,
            },
        )
    }

    /// `delivery` announces to every participant once, in the room's own
    /// voice, that `old_name` became `new_name`. The time of writing is free.
    pub open spec fn rename_notice(
        self,
        old_name: Seq<char>,
        new_name: Seq<char>,
        delivery: DeliveryView,
    ) -> bool {
        &&& roll_call(self.members, delivery.recipients)
        &&& delivery.envelope.message_type == WebSocketMessageType::NewMessage
        &&& delivery.envelope.users is None
        &&& delivery.envelope.user_name is None
        &&& delivery.envelope.message matches Some(chat)
        &&& chat.message == rename_text(old_name, new_name)
        &&& chat.author == system_author()
    }

    /// Nothing happened: the room is as it was and nothing is sent.
    pub open spec fn untouched(self, after: RoomView, sent: Seq<DeliveryView>) -> bool {
        after == self && sent.len() == 0
    }

    /// `who` was admitted under `id`: the roster went to everyone, the
    /// newcomer included, and then the newcomer's own name to the newcomer.
    pub open spec fn admission(
        self,
        who: AddresseeView,
        after: RoomView,
        id: usize,
        sent: Seq<DeliveryView>,
    ) -> bool {
        &&& id == self.next_id
        &&& after == self.join(who)
        &&& sent.len() == 2
        &&& after.roster(sent[0])
        &&& after.own_name(id, sent[1])
    }

    /// Connection `id` left and the roster went to those who remain.
    pub open spec fn departure(self, id: usize, after: RoomView, sent: Seq<DeliveryView>) -> bool {
        &&& after == self.leave(id)
        &&& sent.len() == 1
        &&& after.roster(sent[0])
    }

    /// Connection `id` asked for the display name `new_name`. If it is in
    /// the room it has the name now, and everyone got the notice and then the
    /// roster; if not, nothing happened.
    pub open spec fn renaming(
        self,
        id: usize,
        new_name: Seq<char>,
        after: RoomView,
        sent: Seq<DeliveryView>,
    ) -> bool {
        if self.members.contains_key(id) {
            &&& after == self.rename(id, new_name)
            &&& sent.len() == 2
            &&& after.rename_notice(self.members[id].user_name, new_name, sent[0])
            &&& after.roster(sent[1])
        } else {
            self.untouched(after, sent)
        }
    }

    /// `chat` went to everyone; the room is as it was.
    pub open spec fn relayed(
        self,
        chat: ChatMessageView,
        after: RoomView,
        sent: Seq<DeliveryView>,
    ) -> bool {
        &&& after == self
        &&& sent.len() == 1
        &&& self.chat(chat, sent[0])
    }

    /// What an inbound frame from connection `id` brings about. `None`
    /// stands for a frame that could not be read as an envelope.
    pub open spec fn handled(
        self,
        frame: Option<WebSocketMessageView>,
        id: usize,
        after: RoomView,
        sent: Seq<DeliveryView>,
    ) -> bool {
        match request(frame) {
            Request::Say(chat) => self.relayed(chat, after, sent),
            Request::Rename(new_name) => self.renaming(id, new_name, after, sent),
            Request::Nothing => self.untouched(after, sent),
        }
    }
}

/// What an inbound frame asks of the room.
pub enum Request {
    /// Relay this chat line.
    Say(ChatMessageView),
    /// Give the sender this display name.
    Rename(Seq<char>),
    /// Nothing: the frame is dropped.
    Nothing,
}

/// Reads a frame. An unreadable frame, a roster, and an envelope without the
/// payload that its tag calls for ask nothing.
pub open spec fn request(frame: Option<WebSocketMessageView>) -> Request {
    match frame {
        Some(envelope) => match envelope.message_type {
            WebSocketMessageType::NewMessage => match envelope.message {
                Some(chat) => Request::Say(chat),
                None => Request::Nothing,
            },
            WebSocketMessageType::ChangeUserName => match envelope.user_name {
                Some(new_name) => Request::Rename(new_name),
                None => Request::Nothing,
            },
            WebSocketMessageType::UserList => Request::Nothing,
        },
        None => Request::Nothing,
    }
}

/// Where a connection stands in its life.
pub enum ConnectionStateView {
    /// The session credential is being resolved.
    Connecting,
    /// The identity is known; the channel is not open yet.
    Joined { addressee: AddresseeView },
    /// The connection is in the room under `connection_id`.
    Active { connection_id: usize },
    /// The end: refused, or gone.
    Disconnected,
}

/// What can happen to a connection.
pub enum ConnectionEventView {
    /// The identity resolver answered: a profile, or none.
    Resolved(Option<AddresseeView>),
    /// The channel is open.
    Opened,
    /// A frame came in; `None` if it could not be read as an envelope.
    Frame(Option<WebSocketMessageView>),
    /// The stream ended or failed.
    Closed,
}

impl RoomView {
    /// One step in the life of a connection to this room: what the event
    /// makes of the room and of the connection, and what is sent.
    ///
    /// A refused credential ends the connection before the room is touched,
    /// and so does a room whose counter has run out. The end of the stream
    /// ends the connection from any state; only a connection that was in the
    /// room leaves it. An event that the state does not wait for is ignored.
    pub open spec fn step(
        self,
        state: ConnectionStateView,
        event: ConnectionEventView,
        after: RoomView,
        next: ConnectionStateView,
        sent: Seq<DeliveryView>,
    ) -> bool {
        match (state, event) {
            (ConnectionStateView::Connecting, ConnectionEventView::Resolved(Some(addressee))) => {
                next == (ConnectionStateView::Joined { addressee }) && self.untouched(after, sent)
            },
            (ConnectionStateView::Connecting, ConnectionEventView::Resolved(None)) => {
                next == ConnectionStateView::Disconnected && self.untouched(after, sent)
            },
            (ConnectionStateView::Joined { addressee }, ConnectionEventView::Opened) => {
                if self.has_room() {
                    &&& next == (ConnectionStateView::Active { connection_id: self.next_id })
                    &&& self.admission(addressee, after, self.next_id, sent)
                } else {
                    next == ConnectionStateView::Disconnected && self.untouched(after, sent)
                }
            },
            (ConnectionStateView::Active { connection_id }, ConnectionEventView::Frame(frame)) => {
                next == state && self.handled(frame, connection_id, after, sent)
            },
            (ConnectionStateView::Active { connection_id }, ConnectionEventView::Closed) => {
                next == ConnectionStateView::Disconnected && self.departure(
                    connection_id,
                    after,
                    sent,
                )
            },
            (_, ConnectionEventView::Closed) => {
                next == ConnectionStateView::Disconnected && self.untouched(after, sent)
            },
            _ => next == state && self.untouched(after, sent),
        }
    }
}

/// One step in the life of a connection to the room filed under `id`. If
/// there is no such room the connection is over and nothing else happens;
/// otherwise the step is that room's, and no other room is touched.
pub open spec fn registry_step(
    before: Map<u128, RoomView>,
    id: u128,
    state: ConnectionStateView,
    event: ConnectionEventView,
    after: Map<u128, RoomView>,
    next: ConnectionStateView,
    sent: Seq<DeliveryView>,
) -> bool {
    if before.contains_key(id) {
        &&& after.contains_key(id)
        &&& after == before.insert(id, after[id])
        &&& before[id].step(state, event, after[id], next, sent)
    } else {
        &&& after == before
        &&& next == ConnectionStateView::Disconnected
        &&& sent.len() == 0
    }
}

} // verus!
