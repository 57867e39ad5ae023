//! The identity of a participant.

use vstd::prelude::*;
use crate::entropy::{hyphenated, is_random_identifier, random_number, random_uuid, uuid_text};

verus! {

/// A participant's profile. Only `user_name` ever changes, and only through
/// a rename in the room the participant has joined.
#[derive(Debug)]
pub struct Addressee {
    pub id: usize,
    pub uuid: Option<String>,
    pub name: String,
    pub user_name: String,
    pub user_image_url: String,
}

/// Mathematical value of an [`Addressee`].
pub struct AddresseeView {
    pub id: usize,
    pub uuid: Option<Seq<char>>,
    pub name: Seq<char>,
    pub user_name: Seq<char>,
    pub user_image_url: Seq<char>,
}

impl View for Addressee {
    type V = AddresseeView;

    open spec fn view(&self) -> AddresseeView {
        AddresseeView {
            id: self.id,
            uuid: match self.uuid {
                Some(text) => Some(text@),
                None => None,
            },
            name: self.name@,
            user_name: self.user_name@,
            user_image_url: self.user_image_url@,
        }
    }
}

impl AddresseeView {
    /// The same profile under another display name.
    pub open spec fn renamed(self, user_name: Seq<char>) -> AddresseeView {
        AddresseeView { user_name, ..self }
    }

    /// The profile that carries the given identifiers and texts.
    pub open spec fn identified(
        id: usize,
        uuid: u128,
        name: Seq<char>,
        user_name: Seq<char>,
        user_image_url: Seq<char>,
    ) -> AddresseeView {
        AddresseeView { id, uuid: Some(hyphenated(uuid)), name, user_name, user_image_url }
    }
}

impl Default for Addressee {
    fn default() -> (who: Addressee)
        ensures
            who@ == (AddresseeView {
                id: 0,
                uuid: None,
                name: Seq::empty(),
                user_name: Seq::empty(),
                user_image_url: Seq::empty(),
            }),
    {
        Addressee {
            id: 0,
            uuid: None,
            name: String::new(),
            user_name: String::new(),
            user_image_url: String::new(),
        }
    }
}

impl Addressee {
    /// A profile with the given numeric id and the textual form of `uuid` as
    /// its stable external id.
    pub fn identified(
        id: usize,
        uuid: u128,
        name: String,
        user_name: String,
        user_image_url: String,
    ) -> (who: Addressee)
        ensures
            who@ == AddresseeView::identified(id, uuid, name@, user_name@, user_image_url@),
    {
        Addressee { id, uuid: Some(uuid_text(uuid)), name, user_name, user_image_url }
    }

    /// A fresh profile: the texts are kept, the numeric id is a random number
    /// and the external id is the text of a random identifier.
    pub fn new(name: String, user_name: String, user_image_url: String) -> (who: Addressee)
        ensures
            exists|id: usize, uuid: u128|
                is_random_identifier(uuid) && who@ == #[trigger] AddresseeView::identified(
                    id,
                    uuid,
                    name@,
                    user_name@,
                    user_image_url@,
                ),
    {
        let id: usize = random_number();
        let uuid: u128 = random_uuid();
        Addressee::identified(id, uuid, name, user_name, user_image_url)
    }
}

/// What a client sends to have a profile made.
#[derive(Debug)]
pub struct CreateAddresseeDTO {
    pub name: String,
    pub user_name: String,
    pub user_image_url: String,
}

/// Makes the profile that a request asks for, and the key under which it is
/// to be stored: the profile's external id.
pub fn create_addressee(value: CreateAddresseeDTO) -> (entry: (String, Addressee))
    ensures
        entry.1@.uuid == Some(entry.0@),
        exists|id: usize, uuid: u128|
            is_random_identifier(uuid) && entry.1@ == #[trigger] AddresseeView::identified(
                id,
                uuid,
                value.name@,
                value.user_name@,
                value.user_image_url@,
            ),
{
    let addressee = Addressee::new(value.name, value.user_name, value.user_image_url);
    let key = match &addressee.uuid {
        Some(text) => text.clone(),
        None => unreached(),
    };
    (key, addressee)
}

} // verus!
