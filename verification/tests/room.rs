use chrono::{NaiveDate, NaiveDateTime};
use post_office::addressee::Addressee;
use post_office::chat_room::{rename_message, ChatRoom, Delivery};
use post_office::ws_message::{ChatMessage, WebSocketMessage, WebSocketMessageType};

fn person(id: usize, user_name: &str) -> Addressee {
    Addressee {
        id,
        uuid: None,
        name: format!("{} Example", user_name),
        user_name: user_name.to_string(),
        user_image_url: format!("https://img.example/{}.png", id),
    }
}

fn noon() -> NaiveDateTime {
    NaiveDate::from_ymd_opt(2024, 5, 17).unwrap().and_hms_opt(12, 0, 0).unwrap()
}

fn sorted<T: Ord>(mut items: Vec<T>) -> Vec<T> {
    items.sort();
    items
}

fn names(list: &[&str]) -> Vec<String> {
    list.iter().map(|name| name.to_string()).collect()
}

fn roster_names(delivery: &Delivery) -> Vec<String> {
    assert_eq!(delivery.envelope.message_type, WebSocketMessageType::UserList);
    assert!(delivery.envelope.message.is_none());
    assert!(delivery.envelope.user_name.is_none());
    delivery.envelope.users.clone().unwrap()
}

fn name_in(room: &ChatRoom, id: usize) -> String {
    room.connection(id).unwrap().addressee.user_name.clone()
}

#[test]
fn a_new_room_is_empty() {
    let room = ChatRoom::new("general".to_string(), true);
    assert_eq!(room.len(), 0);
    assert_eq!(room.name(), "general");
    assert!(room.is_public());
    assert!(room.has_room());
    assert!(room.connection_ids().is_empty());
    assert!(room.connection(0).is_none());
}

#[test]
fn the_default_room_has_no_name_and_is_private() {
    let room = ChatRoom::default();
    assert_eq!(room.len(), 0);
    assert_eq!(room.name(), "");
    assert!(!room.is_public());
}

#[test]
fn connection_ids_count_up_from_zero() {
    let mut room = ChatRoom::new("general".to_string(), true);
    assert_eq!(room.add_connection(person(70, "Ann")), 0);
    assert_eq!(room.add_connection(person(70, "Ann")), 1);
    assert_eq!(room.add_connection(person(3, "Cy")), 2);
    room.drop_connection(1);
    assert_eq!(room.add_connection(person(9, "Di")), 3);
    assert_eq!(sorted(room.connection_ids()), vec![0, 2, 3]);
}

#[test]
fn head_count_is_joins_minus_departures() {
    let mut room = ChatRoom::new("general".to_string(), false);
    let mut joins: usize = 0;
    let mut departures: usize = 0;
    for round in 0..6usize {
        room.add_connection(person(round, "Guest"));
        joins += 1;
        assert_eq!(room.len(), joins - departures);
        if round % 2 == 1 {
            room.drop_connection(round - 1);
            departures += 1;
            assert_eq!(room.len(), joins - departures);
        }
    }
    assert_eq!(room.len(), 3);
    assert_eq!(sorted(room.connection_ids()), vec![1, 3, 5]);
}

#[test]
fn leaving_twice_or_without_joining_changes_nothing() {
    let mut room = ChatRoom::new("general".to_string(), false);
    room.drop_connection(0);
    assert_eq!(room.len(), 0);
    let id = room.add_connection(person(1, "Ann"));
    room.add_connection(person(2, "Bob"));
    room.drop_connection(id);
    room.drop_connection(id);
    room.drop_connection(17);
    assert_eq!(room.len(), 1);
    assert_eq!(room.connection_ids(), vec![1]);
    assert_eq!(name_in(&room, 1), "Bob");
}

#[test]
fn join_sends_the_roster_to_all_and_then_the_name_to_the_newcomer() {
    let mut room = ChatRoom::new("general".to_string(), true);
    room.join(person(1, "Ann"));
    let (id, sent) = room.join(person(2, "Bob"));
    assert_eq!(id, 1);
    assert_eq!(sent.len(), 2);
    assert_eq!(sorted(sent[0].recipients.clone()), vec![0, 1]);
    assert_eq!(sorted(roster_names(&sent[0])), names(&["Ann", "Bob"]));
    assert_eq!(sent[1].recipients, vec![1]);
    assert_eq!(sent[1].envelope, WebSocketMessage::change_user_name("Bob".to_string()));
    assert_eq!(sent[1].envelope.message_type, WebSocketMessageType::ChangeUserName);
    assert_eq!(sent[1].envelope.user_name, Some("Bob".to_string()));
    assert!(sent[1].envelope.users.is_none());
    assert!(sent[1].envelope.message.is_none());
}

#[test]
fn the_roster_lists_names_in_the_order_of_its_recipients() {
    let mut room = ChatRoom::new("general".to_string(), true);
    for (id, name) in ["Ann", "Bob", "Cy", "Di", "Ed"].iter().enumerate() {
        assert_eq!(room.add_connection(person(id, name)), id);
    }
    let delivery = room.broadcast_users_list();
    assert_eq!(sorted(delivery.recipients.clone()), vec![0, 1, 2, 3, 4]);
    let listed = roster_names(&delivery);
    assert_eq!(listed.len(), 5);
    for (at, id) in delivery.recipients.iter().enumerate() {
        assert_eq!(listed[at], name_in(&room, *id));
    }
}

#[test]
fn the_roster_keeps_two_participants_of_one_name() {
    let mut room = ChatRoom::new("general".to_string(), true);
    room.add_connection(person(1, "Ann"));
    room.add_connection(person(2, "Ann"));
    let delivery = room.broadcast_users_list();
    assert_eq!(roster_names(&delivery), names(&["Ann", "Ann"]));
    assert_eq!(sorted(delivery.recipients), vec![0, 1]);
}

#[test]
fn the_roster_of_an_empty_room_goes_to_nobody() {
    let room = ChatRoom::new("general".to_string(), true);
    let delivery = room.broadcast_users_list();
    assert!(delivery.recipients.is_empty());
    assert_eq!(delivery.envelope, WebSocketMessage::user_list(Vec::new()));
}

#[test]
fn users_list_for_follows_the_given_order_and_passes_over_strangers() {
    let mut room = ChatRoom::new("general".to_string(), true);
    room.add_connection(person(1, "Ann"));
    room.add_connection(person(2, "Bob"));
    room.add_connection(person(3, "Cy"));
    let delivery = room.users_list_for(&vec![2, 9, 0, 1, 2]);
    assert_eq!(delivery.recipients, vec![2, 0, 1, 2]);
    assert_eq!(delivery.envelope, WebSocketMessage::user_list(names(&["Cy", "Ann", "Bob", "Cy"])));
    let nobody = room.users_list_for(&vec![7, 8]);
    assert!(nobody.recipients.is_empty());
    assert_eq!(nobody.envelope.users, Some(Vec::new()));
}

#[test]
fn broadcast_hands_the_chat_line_to_everyone_unchanged() {
    let mut room = ChatRoom::new("general".to_string(), true);
    room.add_connection(person(1, "Ann"));
    room.add_connection(person(2, "Bob"));
    let line = ChatMessage {
        message: "hello".to_string(),
        author: "not Ann at all".to_string(),
        created_at: noon(),
    };
    let delivery = room.broadcast(line.clone());
    assert_eq!(sorted(delivery.recipients), vec![0, 1]);
    assert_eq!(delivery.envelope.message_type, WebSocketMessageType::NewMessage);
    assert_eq!(delivery.envelope.message, Some(line));
    assert!(delivery.envelope.users.is_none());
    assert!(delivery.envelope.user_name.is_none());
    assert_eq!(room.len(), 2);
}

#[test]
fn send_user_name_goes_to_that_connection_alone() {
    let mut room = ChatRoom::new("general".to_string(), true);
    room.add_connection(person(1, "Ann"));
    room.add_connection(person(2, "Bob"));
    let delivery = room.send_user_name(0).unwrap();
    assert_eq!(delivery.recipients, vec![0]);
    assert_eq!(delivery.envelope, WebSocketMessage::change_user_name("Ann".to_string()));
    assert!(room.send_user_name(2).is_none());
}

#[test]
fn rename_message_spells_out_both_names() {
    let chat = rename_message(&"Ann".to_string(), &"Al".to_string(), noon());
    assert_eq!(
        chat,
        ChatMessage {
            message: "User Ann changed user name to Al".to_string(),
            author: "System".to_string(),
            created_at: noon(),
        }
    );
    let blank = rename_message(&String::new(), &String::new(), noon());
    assert_eq!(blank.message, "User  changed user name to ");
    assert_eq!(blank.message.len(), 27);
}

#[test]
fn change_user_name_at_renames_and_announces() {
    let mut room = ChatRoom::new("general".to_string(), true);
    room.add_connection(person(1, "Ann"));
    room.add_connection(person(2, "Bob"));
    let notice = room.change_user_name_at("Al".to_string(), 0, noon()).unwrap();
    assert_eq!(sorted(notice.recipients), vec![0, 1]);
    assert_eq!(
        notice.envelope,
        WebSocketMessage::new_message(ChatMessage {
            message: "User Ann changed user name to Al".to_string(),
            author: "System".to_string(),
            created_at: noon(),
        })
    );
    assert_eq!(name_in(&room, 0), "Al");
    assert_eq!(name_in(&room, 1), "Bob");
    let who = &room.connection(0).unwrap().addressee;
    assert_eq!(who.id, 1);
    assert_eq!(who.name, "Ann Example");
    assert_eq!(who.user_image_url, "https://img.example/1.png");
    assert_eq!(room.len(), 2);
}

#[test]
fn the_latest_rename_is_the_name() {
    let mut room = ChatRoom::new("general".to_string(), true);
    room.add_connection(person(1, "Ann"));
    room.change_user_name_at("Al".to_string(), 0, noon());
    let notice = room.change_user_name_at("Alice".to_string(), 0, noon()).unwrap();
    assert_eq!(
        notice.envelope.message.unwrap().message,
        "User Al changed user name to Alice"
    );
    assert_eq!(name_in(&room, 0), "Alice");
    assert_eq!(room.broadcast_users_list().envelope.users, Some(names(&["Alice"])));
}

#[test]
fn renaming_a_stranger_does_nothing() {
    let mut room = ChatRoom::new("general".to_string(), true);
    room.add_connection(person(1, "Ann"));
    assert!(room.change_user_name_at("Al".to_string(), 5, noon()).is_none());
    assert!(room.change_user_name("Al".to_string(), 5).is_none());
    assert_eq!(room.len(), 1);
    assert_eq!(name_in(&room, 0), "Ann");
}

#[test]
fn change_user_name_stamps_the_time_of_the_call() {
    let mut room = ChatRoom::new("general".to_string(), true);
    room.add_connection(person(1, "Ann"));
    let before = chrono::Utc::now().naive_utc();
    let notice = room.change_user_name("Al".to_string(), 0).unwrap();
    let after = chrono::Utc::now().naive_utc();
    let chat = notice.envelope.message.unwrap();
    assert_eq!(chat.message, "User Ann changed user name to Al");
    assert_eq!(chat.author, "System");
    assert!(before <= chat.created_at && chat.created_at <= after);
    assert!(chat.created_at > noon());
    assert_eq!(notice.recipients, vec![0]);
}

#[test]
fn three_join_one_after_another() {
    let mut room = ChatRoom::new("general".to_string(), true);

    let (a, sent) = room.join(person(1, "Ann"));
    assert_eq!(sent[0].recipients, vec![a]);
    assert_eq!(roster_names(&sent[0]), names(&["Ann"]));
    assert_eq!(sent[1].recipients, vec![a]);

    let (b, sent) = room.join(person(2, "Bob"));
    assert_eq!(sorted(sent[0].recipients.clone()), sorted(vec![a, b]));
    assert_eq!(roster_names(&sent[0]).len(), 2);
    assert_eq!(sorted(roster_names(&sent[0])), names(&["Ann", "Bob"]));
    assert_eq!(sent[1].recipients, vec![b]);

    let (c, sent) = room.join(person(3, "Cy"));
    assert_eq!(sent.len(), 2);
    assert_eq!(sorted(sent[0].recipients.clone()), sorted(vec![a, b, c]));
    assert_eq!(roster_names(&sent[0]).len(), 3);
    assert_eq!(sorted(roster_names(&sent[0])), names(&["Ann", "Bob", "Cy"]));
    assert_eq!(sent[1].recipients, vec![c]);
    assert_eq!(sent[1].envelope.user_name, Some("Cy".to_string()));
    assert_eq!(room.len(), 3);
}
