//! The message envelope exchanged with clients, and its payloads.

use vstd::prelude::*;

verus! {

/// `chrono::NaiveDateTime` is carried through unread: the library never
/// looks inside a timestamp.
#[verifier::external_type_specification]
#[verifier::external_body]
pub struct ExNaiveDateTime(chrono::NaiveDateTime);

/// Tag of an envelope.
#[derive(Clone, Copy, Debug, PartialEq, Eq, Structural)]
pub enum WebSocketMessageType {
    NewMessage,
    UserList,
    ChangeUserName,
}

/// One chat line.
#[derive(Debug, PartialEq)]
pub struct ChatMessage {
    pub message: String,
    pub author: String,
    pub created_at: chrono::NaiveDateTime,
}

/// Mathematical value of a [`ChatMessage`].
pub struct ChatMessageView {
    pub message: Seq<char>,
    pub author: Seq<char>,
    pub created_at: chrono::NaiveDateTime,
}

impl View for ChatMessage {
    type V = ChatMessageView;

    open spec fn view(&self) -> ChatMessageView {
        ChatMessageView {
            message: self.message@,
            author: self.author@,
            created_at: self.created_at,
        }
    }
}

impl Clone for ChatMessage {
    fn clone(&self) -> (copy: ChatMessage)
        ensures
            copy@ == self@,
    {
        ChatMessage {
            message: self.message.clone(),
            author: self.author.clone(),
            created_at: self.created_at,
        }
    }
}

/// The envelope: a tag and, for each tag, the one payload that belongs to it.
#[derive(Debug, PartialEq)]
pub struct WebSocketMessage {
    pub message_type: WebSocketMessageType,
    pub message: Option<ChatMessage>,
    pub users: Option<Vec<String>>,
    pub user_name: Option<String>,
}

/// The display names held by a list of strings.
pub open spec fn texts(names: Seq<String>) -> Seq<Seq<char>> {
    names.map_values(|name: String| name@)
}

/// Mathematical value of a [`WebSocketMessage`].
pub struct WebSocketMessageView {
    pub message_type: WebSocketMessageType,
    pub message: Option<ChatMessageView>,
    pub users: Option<Seq<Seq<char>>>,
    pub user_name: Option<Seq<char>>,
}

impl View for WebSocketMessage {
    type V = WebSocketMessageView;

    open spec fn view(&self) -> WebSocketMessageView {
        WebSocketMessageView {
            message_type: self.message_type,
            message: match self.message {
                Some(chat) => Some(chat@),
                None => None,
            },
            users: match self.users {
                Some(names) => Some(texts(names@)),
                None => None,
            },
            user_name: match self.user_name {
                Some(name) => Some(name@),
                None => None,
            },
        }
    }
}

impl Clone for WebSocketMessage {
    fn clone(&self) -> (copy: WebSocketMessage)
        ensures
            copy@ == self@,
    {
        let message = match &self.message {
            Some(chat) => Some(chat.clone()),
            None => None,
        };
        let users = match &self.users {
            Some(names) => {
                let copy = names.clone();
                assert(texts(copy@) =~= texts(names@));
                Some(copy)
            },
            None => None,
        };
        let user_name = match &self.user_name {
            Some(name) => Some(name.clone()),
            None => None,
        };
        WebSocketMessage { message_type: self.message_type, message, users, user_name }
    }
}

impl WebSocketMessageView {
    /// The envelope that carries one chat line.
    pub open spec fn new_message(chat: ChatMessageView) -> WebSocketMessageView {
        WebSocketMessageView {
            message_type: WebSocketMessageType::NewMessage,
            message: Some(chat),
            users: None,
            user_name: None,
        }
    }

    /// The envelope that carries a roster.
    pub open spec fn user_list(names: Seq<Seq<char>>) -> WebSocketMessageView {
        WebSocketMessageView {
            message_type: WebSocketMessageType::UserList,
            message: None,
            users: Some(names),
            user_name: None,
        }
    }

    /// The envelope that tells one participant its display name.
    pub open spec fn change_user_name(name: Seq<char>) -> WebSocketMessageView {
        WebSocketMessageView {
            message_type: WebSocketMessageType::ChangeUserName,
            message: None,
            users: None,
            user_name: Some(name),
        }
    }

    /// Exactly the payload that the tag calls for is present.
    pub open spec fn well_formed(self) -> bool {
        match self.message_type {
            WebSocketMessageType::NewMessage => self.message is Some && self.users is None
                && self.user_name is None,
            WebSocketMessageType::UserList => self.message is None && self.users is Some
                && self.user_name is None,
            WebSocketMessageType::ChangeUserName => self.message is None && self.users is None
                && self.user_name is Some,
        }
    }
}

impl WebSocketMessage {
    /// Wraps a chat line.
    pub fn new_message(chat: ChatMessage) -> (envelope: WebSocketMessage)
        ensures
            envelope@ == WebSocketMessageView::new_message(chat@),
    {
        WebSocketMessage {
            message_type: WebSocketMessageType::NewMessage,
            message: Some(chat),
            users: None,
            user_name: None,
        }
    }

    /// Wraps a roster.
    pub fn user_list(names: Vec<String>) -> (envelope: WebSocketMessage)
        ensures
            envelope@ == WebSocketMessageView::user_list(texts(names@)),
    {
        WebSocketMessage {
            message_type: WebSocketMessageType::UserList,
            message: None,
            users: Some(names),
            user_name: None,
        }
    }

    /// Wraps a display name.
    pub fn change_user_name(name: String) -> (envelope: WebSocketMessage)
        ensures
            envelope@ == WebSocketMessageView::change_user_name(name@),
    {
        WebSocketMessage {
            message_type: WebSocketMessageType::ChangeUserName,
            message: None,
            users: None,
            user_name: Some(name),
        }
    }
}

} // verus!
