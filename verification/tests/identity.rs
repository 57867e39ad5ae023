use post_office::addressee::{create_addressee, Addressee, CreateAddresseeDTO};

fn is_hyphenated(text: &str) -> bool {
    text.len() == 36
        && text.char_indices().all(|(at, c)| {
            if at == 8 || at == 13 || at == 18 || at == 23 {
                c == '-'
            } else {
                c.is_ascii_digit() || ('a'..='f').contains(&c)
            }
        })
}

#[test]
fn identified_keeps_what_it_is_given() {
    let who = Addressee::identified(
        12,
        0xa1a2a3a4b1b2c1c2d1d2d3d4d5d6d7d8,
        "Ann Example".to_string(),
        "Ann".to_string(),
        "https://img.example/ann.png".to_string(),
    );
    assert_eq!(who.id, 12);
    assert_eq!(who.uuid, Some("a1a2a3a4-b1b2-c1c2-d1d2-d3d4d5d6d7d8".to_string()));
    assert_eq!(who.name, "Ann Example");
    assert_eq!(who.user_name, "Ann");
    assert_eq!(who.user_image_url, "https://img.example/ann.png");
}

#[test]
fn the_external_id_is_written_most_significant_digit_first() {
    let who = Addressee::identified(0, 1, String::new(), String::new(), String::new());
    assert_eq!(who.uuid, Some("00000000-0000-0000-0000-000000000001".to_string()));
    let who = Addressee::identified(0, 0xf << 124, String::new(), String::new(), String::new());
    assert_eq!(who.uuid, Some("f0000000-0000-0000-0000-000000000000".to_string()));
    let who = Addressee::identified(0, 0xabc << 64, String::new(), String::new(), String::new());
    assert_eq!(who.uuid, Some("00000000-0000-0abc-0000-000000000000".to_string()));
}

#[test]
fn a_new_profile_keeps_its_texts_and_gets_a_random_external_id() {
    let who = Addressee::new("Ann Example".to_string(), "Ann".to_string(), "ann.png".to_string());
    assert_eq!(who.name, "Ann Example");
    assert_eq!(who.user_name, "Ann");
    assert_eq!(who.user_image_url, "ann.png");
    let uuid = who.uuid.unwrap();
    assert!(is_hyphenated(&uuid));
    assert_eq!(uuid.as_bytes()[14], b'4');
    assert!(matches!(uuid.as_bytes()[19], b'8' | b'9' | b'a' | b'b'));
}

#[test]
fn two_new_profiles_differ() {
    let one = Addressee::new("Ann".to_string(), "Ann".to_string(), String::new());
    let two = Addressee::new("Ann".to_string(), "Ann".to_string(), String::new());
    assert_ne!(one.uuid, two.uuid);
    let ids: Vec<usize> = (0..8).map(|_| Addressee::new(String::new(), String::new(), String::new()).id).collect();
    assert!(ids.iter().any(|id| *id != ids[0]));
}

#[test]
fn the_default_profile_is_blank() {
    let who = Addressee::default();
    assert_eq!(who.id, 0);
    assert_eq!(who.uuid, None);
    assert_eq!(who.name, "");
    assert_eq!(who.user_name, "");
    assert_eq!(who.user_image_url, "");
}

#[test]
fn create_addressee_files_the_profile_under_its_external_id() {
    let request = CreateAddresseeDTO {
        name: "Bob Example".to_string(),
        user_name: "Bob".to_string(),
        user_image_url: "bob.png".to_string(),
    };
    let (key, who) = create_addressee(request);
    assert!(is_hyphenated(&key));
    assert_eq!(who.uuid, Some(key));
    assert_eq!(who.name, "Bob Example");
    assert_eq!(who.user_name, "Bob");
    assert_eq!(who.user_image_url, "bob.png");
}
