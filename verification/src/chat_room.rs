//! A room: its participants and the deliveries that its events call for.

use std::collections::hash_map::Entry;
use std::collections::HashMap;
use vstd::prelude::*;
use vstd::std_specs::hash::*;
use vstd::std_specs::iter::IteratorSpec;
use crate::addressee::{Addressee, AddresseeView};
use crate::clock::now;
use crate::model::{
    lemma_roll_call_present, names_in, present, rename_text, roll_call, system_author,
    DeliveryView, RoomView,
};
use crate::ws_message::{texts, ChatMessage, ChatMessageView, WebSocketMessage, WebSocketMessageView};
use vstd::string::*;

verus! {

broadcast use vstd::std_specs::hash::group_hash_axioms;

/// One envelope and the connections to send it to, first to last. The
/// caller sends it to each in turn and goes on when a send fails.
#[derive(Debug)]
pub struct Delivery {
    pub recipients: Vec<usize>,
    pub envelope: WebSocketMessage,
}

impl View for Delivery {
    type V = DeliveryView;

    open spec fn view(&self) -> DeliveryView {
        DeliveryView { recipients: self.recipients@, envelope: self.envelope@ }
    }
}

/// The views of a list of deliveries, one for one.
pub open spec fn deliveries(list: Seq<Delivery>) -> Seq<DeliveryView> {
    list.map_values(|delivery: Delivery| delivery@)
}

/// A participant as the room holds it. The outbound channel stays with the
/// caller, filed under the connection id.
#[derive(Debug)]
pub struct ChatRoomConnection {
    pub addressee: Addressee,
}

/// A room.
#[derive(Debug)]
pub struct ChatRoom {
    public: bool,
    name: String,
    connections: HashMap<usize, ChatRoomConnection>,
    next_id: usize,
}

/// The profiles behind a table of connections.
pub open spec fn profiles(connections: Map<usize, ChatRoomConnection>) -> Map<
    usize,
    AddresseeView,
> {
    Map::new(
        |id: usize| connections.contains_key(id),
        |id: usize| connections[id].addressee@,
    )
}

impl View for ChatRoom {
    type V = RoomView;

    closed spec fn view(&self) -> RoomView {
        RoomView {
            public: self.public,
            name: self.name@,
            members: profiles(self.connections@),
            next_id: self.next_id,
        }
    }
}

impl ChatRoom {
    /// An empty room.
    pub fn new(name: String, public: bool) -> (room: ChatRoom)
        ensures
            room@ == RoomView::empty(name@, public),
            room@.wf(),
    {
        let room = ChatRoom { public, name, connections: HashMap::new(), next_id: 0 };
        assert(room@.members =~= Map::empty());
        room
    }

    /// The room's display name.
    pub fn name(&self) -> (name: &String)
        ensures
            name@ == self@.name,
    {
        &self.name
    }

    /// Whether the room is open to everyone.
    pub fn is_public(&self) -> (public: bool)
        ensures
            public == self@.public,
    {
        self.public
    }

    /// Number of live participants.
    pub fn len(&self) -> (count: usize)
        ensures
            count == self@.count(),
    {
        assert(self@.members.dom() =~= self.connections@.dom());
        self.connections.len()
    }

    /// The participant under connection `id`, if it is in the room.
    pub fn connection(&self, id: usize) -> (found: Option<&ChatRoomConnection>)
        ensures
            match found {
                Some(connection) => self@.members.contains_key(id) && connection.addressee@
                    == self@.members[id],
                None => !self@.members.contains_key(id),
            },
    {
        self.connections.get(&id)
    }

    /// Whether the room can still hand out a connection id.
    pub fn has_room(&self) -> (free: bool)
        ensures
            free == self@.has_room(),
    {
        self.next_id < usize::MAX
    }

    /// Registers a participant under the next connection id and returns the id.
    pub fn add_connection(&mut self, addressee: Addressee) -> (id: usize)
        requires
            old(self)@.has_room(),
        ensures
            id == old(self)@.next_id,
            final(self)@ == old(self)@.join(addressee@),
            old(self)@.wf() ==> final(self)@.wf(),
    {
        let id = self.next_id;
        self.next_id = id + 1;
        self.connections.insert(id, ChatRoomConnection { addressee });
        assert(self@.members =~= old(self)@.join(addressee@).members);
        id
    }

    /// Removes a participant; nothing happens if the id is not in the room.
    pub fn drop_connection(&mut self, id: usize)
        ensures
            final(self)@ == old(self)@.leave(id),
            old(self)@.wf() ==> final(self)@.wf(),
    {
        self.connections.remove(&id);
        assert(self@.members =~= old(self)@.leave(id).members);
    }

    /// The connection ids of the participants, each once, in the order in
    /// which the table yields them.
    pub fn connection_ids(&self) -> (ids: Vec<usize>)
        ensures
            roll_call(self@.members, ids@),
    {
        let mut ids: Vec<usize> = Vec::new();
        let keys = self.connections.keys();
        let ghost order = keys.remaining().unref();
        proof {
            assert forall|i: int, j: int|
                0 <= i < order.len() && 0 <= j < order.len() && i != j implies order[i]
                != order[j] by {
                assert(keys.remaining()[i] != keys.remaining()[j]);
            }
            assert(self@.members.dom() =~= self.connections@.dom());
        }
        for id in it: keys
            invariant
                it.seq().unref() == order,
                ids@ == order.subrange(0, it.index()),
        {
            ids.push(*id);
        }
        assert(ids@ =~= order);
        ids
    }

    /// The roster as sent to the connections of `order` that are in the
    /// room: their display names, one for one and in that order.
    pub fn users_list_for(&self, order: &Vec<usize>) -> (delivery: Delivery)
        ensures
            delivery@.recipients == present(self@.members, order@),
            delivery@.envelope == WebSocketMessageView::user_list(
                names_in(self@.members, delivery@.recipients),
            ),
    {
        let mut recipients: Vec<usize> = Vec::new();
        let mut names: Vec<String> = Vec::new();
        let mut at: usize = 0;
        proof {
            reveal(Seq::filter);
        }
        while at < order.len()
            invariant
                at <= order.len(),
                recipients@ == present(self@.members, order@.subrange(0, at as int)),
                names@.len() == recipients@.len(),
                texts(names@) == names_in(self@.members, recipients@),
            decreases order.len() - at,
        {
            let id = order[at];
            proof {
                reveal(Seq::filter);
                assert(order@.subrange(0, at + 1).drop_last() =~= order@.subrange(0, at as int));
            }
            if let Some(connection) = self.connections.get(&id) {
                let ghost sent = recipients@;
                let ghost listed = names@;
                recipients.push(id);
                names.push(connection.addressee.user_name.clone());
                assert forall|k: int| 0 <= k < names@.len() implies texts(names@)[k] == names_in(
                    self@.members,
                    recipients@,
                )[k] by {
                    if k < listed.len() {
                        assert(texts(listed)[k] == names_in(self@.members, sent)[k]);
                    }
                }
                assert(texts(names@) =~= names_in(self@.members, recipients@));
            }
            at = at + 1;
        }
        assert(order@.subrange(0, at as int) =~= order@);
        Delivery { recipients, envelope: WebSocketMessage::user_list(names) }
    }

    /// The roster broadcast: every participant, itself included, gets the
    /// display names of all participants.
    pub fn broadcast_users_list(&self) -> (delivery: Delivery)
        ensures
            self@.roster(delivery@),
    {
        let order = self.connection_ids();
        proof {
            lemma_roll_call_present(self@.members, order@);
        }
        self.users_list_for(&order)
    }

    /// The broadcast of one chat line to every participant.
    pub fn broadcast(&self, chat_message: ChatMessage) -> (delivery: Delivery)
        ensures
            self@.chat(chat_message@, delivery@),
    {
        Delivery {
            recipients: self.connection_ids(),
            envelope: WebSocketMessage::new_message(chat_message),
        }
    }

    /// The envelope that tells connection `id` its own display name, for
    /// that connection alone; `None` if it is not in the room.
    pub fn send_user_name(&self, id: usize) -> (delivery: Option<Delivery>)
        ensures
            match delivery {
                Some(delivery) => self@.own_name(id, delivery@),
                None => !self@.members.contains_key(id),
            },
    {
        match self.connections.get(&id) {
            Some(connection) => {
                let mut recipients: Vec<usize> = Vec::new();
                recipients.push(id);
                assert(recipients@ =~= seq![id]);
                Some(
                    Delivery {
                        recipients,
                        envelope: WebSocketMessage::change_user_name(
                            connection.addressee.user_name.clone(),
                        ),
                    },
                )
            },
            None => None,
        }
    }

    /// Gives connection `id` the display name `new_user_name` and announces
    /// the change, as written at `at`, to every participant. If the
    /// connection is not in the room, nothing changes and nothing is sent.
    pub fn change_user_name_at(
        &mut self,
        new_user_name: String,
        id: usize,
        at: chrono::NaiveDateTime,
    ) -> (notice: Option<Delivery>)
        ensures
            final(self)@ == old(self)@.rename(id, new_user_name@),
            old(self)@.wf() ==> final(self)@.wf(),
            match notice {
                Some(delivery) => {
                    &&& old(self)@.members.contains_key(id)
                    &&& old(self)@.rename(id, new_user_name@).rename_notice_at(
                        old(self)@.members[id].user_name,
                        new_user_name@,
                        at,
                        delivery@,
                    )
                },
                None => !old(self)@.members.contains_key(id),
            },
    {
        let renamed = match self.connections.entry(id) {
            Entry::Occupied(mut entry) => {
                let connection = entry.get_mut();
                let old_user_name = connection.addressee.user_name.clone();
                connection.addressee.user_name = new_user_name.clone();
                Some(old_user_name)
            },
            Entry::Vacant(_) => None,
        };
        match renamed {
            Some(old_user_name) => {
                assert(self@.members =~= old(self)@.rename(id, new_user_name@).members);
                Some(self.broadcast(rename_message(&old_user_name, &new_user_name, at)))
            },
            None => {
                assert(self@.members =~= old(self)@.members);
                None
            },
        }
    }

    /// Gives connection `id` the display name `new_user_name` and announces
    /// the change to every participant, in a message that bears the time of
    /// the call. If the connection is not in the room, nothing changes and
    /// nothing is sent.
    pub fn change_user_name(&mut self, new_user_name: String, id: usize) -> (notice: Option<
        Delivery,
    >)
        ensures
            final(self)@ == old(self)@.rename(id, new_user_name@),
            old(self)@.wf() ==> final(self)@.wf(),
            match notice {
                Some(delivery) => {
                    &&& old(self)@.members.contains_key(id)
                    &&& old(self)@.rename(id, new_user_name@).rename_notice(
                        old(self)@.members[id].user_name,
                        new_user_name@,
                        delivery@,
                    )
                },
                None => !old(self)@.members.contains_key(id),
            },
    {
        self.change_user_name_at(new_user_name, id, now())
    }

    /// Admits a participant: registers it under the next connection id, then
    /// sends the roster to everyone and, after that, the newcomer's own
    /// display name to the newcomer alone.
    pub fn join(&mut self, addressee: Addressee) -> (admitted: (usize, Vec<Delivery>))
        requires
            old(self)@.has_room(),
        ensures
            old(self)@.admission(addressee@, final(self)@, admitted.0, deliveries(admitted.1@)),
            old(self)@.wf() ==> final(self)@.wf(),
    {
        let id = self.add_connection(addressee);
        let mut sent: Vec<Delivery> = Vec::new();
        sent.push(self.broadcast_users_list());
        match self.send_user_name(id) {
            Some(delivery) => {
                sent.push(delivery);
            },
            None => {},
        }
        (id, sent)
    }
}

impl Default for ChatRoom {
    fn default() -> (room: ChatRoom)
        ensures
            room@ == RoomView::empty(Seq::empty(), false),
    {
        ChatRoom::new(String::new(), false)
    }
}

/// The message by which the room announces a rename.
pub fn rename_message(old_name: &String, new_name: &String, at: chrono::NaiveDateTime) -> (chat:
    ChatMessage)
    ensures
        chat@ == (ChatMessageView {
            message: rename_text(old_name@, new_name@),
            author: system_author(),
            created_at: at,
        }),
{
    let mut text = "User ".to_string();
    text.append(old_name.as_str());
    text.append(" changed user name to ");
    text.append(new_name.as_str());
    ChatMessage { message: text, author: "System".to_string(), created_at: at }
}

} // verus!
