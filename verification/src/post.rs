//! The registry of rooms.

use std::collections::hash_map::Entry;
use std::collections::HashMap;
use vstd::prelude::*;
use vstd::std_specs::hash::*;
use crate::chat_room::{deliveries, ChatRoom, Delivery};
use crate::controller::{advance, ConnectionEvent, ConnectionState};
use crate::entropy::{hyphenated, is_random_identifier, random_uuid, uuid_text};
use crate::model::{registry_step, RoomView};
use vstd::string::*;

verus! {

broadcast use vstd::std_specs::hash::group_hash_axioms;

/// What a client sends to have a room made.
#[derive(Debug)]
pub struct CreatePostBoxDTO<'r> {
    pub public: bool,
    pub name: &'r str,
}

/// The rooms, by room id.
#[derive(Debug)]
pub struct Post {
    offices: HashMap<u128, ChatRoom>,
}

/// The values of a table of rooms.
pub open spec fn room_views(offices: Map<u128, ChatRoom>) -> Map<u128, RoomView> {
    Map::new(|id: u128| offices.contains_key(id), |id: u128| offices[id]@)
}

impl View for Post {
    type V = Map<u128, RoomView>;

    closed spec fn view(&self) -> Map<u128, RoomView> {
        room_views(self.offices@)
    }
}

impl Default for Post {
    fn default() -> (post: Post)
        ensures
            post@ == Map::<u128, RoomView>::empty(),
    {
        Post::new()
    }
}

impl Post {
    /// A registry without rooms.
    pub fn new() -> (post: Post)
        ensures
            post@ == Map::<u128, RoomView>::empty(),
    {
        let post = Post { offices: HashMap::new() };
        assert(post@ =~= Map::empty());
        post
    }

    /// Number of rooms.
    pub fn len(&self) -> (count: usize)
        ensures
            count == self@.len(),
            self@.dom().finite(),
    {
        assert(self@.dom() =~= self.offices@.dom());
        self.offices.len()
    }

    /// Files an empty room under `id`. A room that stood there is replaced.
    pub fn add_office_as(&mut self, id: u128, name: &str, public: bool)
        ensures
            final(self)@ == old(self)@.insert(id, RoomView::empty(name@, public)),
    {
        self.offices.insert(id, ChatRoom::new(name.to_string(), public));
        assert(self@ =~= old(self)@.insert(id, RoomView::empty(name@, public)));
    }

    /// Makes an empty room under a random id and returns the id. The id is
    /// not compared with those in use.
    pub fn add_office(&mut self, name: &str, public: bool) -> (id: u128)
        ensures
            is_random_identifier(id),
            final(self)@ == old(self)@.insert(id, RoomView::empty(name@, public)),
    {
        let id = random_uuid();
        self.add_office_as(id, name, public);
        id
    }

    /// The room filed under `id`, if there is one.
    pub fn lookup(&self, id: u128) -> (found: Option<&ChatRoom>)
        ensures
            match found {
                Some(room) => self@.contains_key(id) && room@ == self@[id],
                None => !self@.contains_key(id),
            },
    {
        self.offices.get(&id)
    }
}

/// What the maker of a room is told: the words `chat id: ` and the room id
/// in its textual form.
pub open spec fn chat_id_line(id: u128) -> Seq<char> {
    "chat id: "@ + hyphenated(id)
}

/// The line that tells the room id `id`.
pub fn chat_id_text(id: u128) -> (line: String)
    ensures
        line@ == chat_id_line(id),
{
    let mut line = "chat id: ".to_string();
    let text = uuid_text(id);
    line.append(text.as_str());
    line
}

/// Makes the room that a request asks for and answers with its id.
pub fn post_box_create(post_box_dto: &CreatePostBoxDTO, state: &mut Post) -> (line: String)
    ensures
        exists|id: u128|
            is_random_identifier(id) && line@ == #[trigger] chat_id_line(id) && final(state)@
                == old(state)@.insert(id, RoomView::empty(post_box_dto.name@, post_box_dto.public)),
{
    let chat_id = state.add_office(post_box_dto.name, post_box_dto.public);
    chat_id_text(chat_id)
}

/// Takes a connection to the room filed under `post_box_id` one step
/// further. If there is no such room the connection is refused.
pub fn post_box(
    post_box_id: u128,
    state: &mut Post,
    connection: ConnectionState,
    event: ConnectionEvent,
) -> (outcome: (ConnectionState, Vec<Delivery>))
    ensures
        registry_step(
            old(state)@,
            post_box_id,
            connection@,
            event@,
            final(state)@,
            outcome.0@,
            deliveries(outcome.1@),
        ),
{
    let outcome = match state.offices.entry(post_box_id) {
        Entry::Occupied(mut office) => advance(office.get_mut(), connection, event),
        Entry::Vacant(_) => (ConnectionState::Disconnected, Vec::new()),
    };
    proof {
        if old(state)@.contains_key(post_box_id) {
            assert(state@ =~= old(state)@.insert(post_box_id, state@[post_box_id]));
        } else {
            assert(state@ =~= old(state)@);
        }
    }
    outcome
}

} // verus!
