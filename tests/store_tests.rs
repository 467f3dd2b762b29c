use chat_server::session::{apply_action, Connection, Event};
use chat_server::store::{DeleteError, EditError, MessageStore};
use chat_server::wire::{decode, parse_id, Action, DecodeError, Frame};
use chat_server::registry::{RegistryError, SessionRegistry};

fn s(x: &str) -> String {
    x.to_string()
}

fn frame(kind: &str, id: Option<&str>, content: Option<&str>) -> Frame {
    Frame {
        kind: s(kind),
        id: id.map(|i| i.as_bytes().to_vec()),
        content: content.map(s),
    }
}

#[test]
fn parse_id_accepts_decimal_text() {
    assert_eq!(parse_id(b"0"), Some(0));
    assert_eq!(parse_id(b"123"), Some(123));
    assert_eq!(parse_id(b"18446744073709551615"), Some(u64::MAX));
    for n in [1u64, 9, 10, 99, 100, 4242, 987654321012345678] {
        assert_eq!(parse_id(n.to_string().as_bytes()), Some(n));
    }
}

#[test]
fn parse_id_refuses_other_text() {
    assert_eq!(parse_id(b""), None);
    assert_eq!(parse_id(b"007"), None);
    assert_eq!(parse_id(b"00"), None);
    assert_eq!(parse_id(b"+5"), None);
    assert_eq!(parse_id(b"-5"), None);
    assert_eq!(parse_id(b"12a"), None);
    assert_eq!(parse_id(b" 12"), None);
    assert_eq!(parse_id(b"18446744073709551616"), None);
    assert_eq!(parse_id(b"99999999999999999999"), None);
}

#[test]
fn decode_each_kind() {
    match decode(frame("message", None, Some("hi"))) {
        Ok(Action::Post { content }) => assert_eq!(content, "hi"),
        _ => panic!("expected a post"),
    }
    match decode(frame("edit", Some("42"), Some("bye"))) {
        Ok(Action::Edit { id, content }) => {
            assert_eq!(id, 42);
            assert_eq!(content, "bye");
        }
        _ => panic!("expected an edit"),
    }
    match decode(frame("delete", Some("7"), None)) {
        Ok(Action::Delete { id }) => assert_eq!(id, 7),
        _ => panic!("expected a delete"),
    }
}

#[test]
fn decode_errors() {
    assert!(matches!(decode(frame("shout", None, Some("hi"))), Err(DecodeError::UnknownKind)));
    assert!(matches!(decode(frame("Message", None, Some("hi"))), Err(DecodeError::UnknownKind)));
    assert!(matches!(decode(frame("message", Some("1"), None)), Err(DecodeError::MissingField)));
    assert!(matches!(decode(frame("edit", None, Some("x"))), Err(DecodeError::MissingField)));
    assert!(matches!(decode(frame("edit", Some("1"), None)), Err(DecodeError::MissingField)));
    assert!(matches!(decode(frame("delete", None, None)), Err(DecodeError::MissingField)));
    assert!(matches!(decode(frame("edit", Some("x1"), Some("x"))), Err(DecodeError::MalformedId)));
    assert!(matches!(decode(frame("delete", Some("01"), None)), Err(DecodeError::MalformedId)));
}

#[test]
fn post_then_get() {
    let mut store = MessageStore::new();
    let m = store.post(s("alice"), s("hi"));
    assert_eq!(store.len(), 1);
    let got = store.get(m.id).expect("live");
    assert_eq!(got.author, "alice");
    assert_eq!(got.content, "hi");
    let empty = store.post(s("alice"), s(""));
    assert_ne!(empty.id, m.id);
    assert_eq!(store.get(empty.id).unwrap().content, "");
    assert_eq!(store.len(), 2);
}

#[test]
fn post_with_draw_uses_a_free_draw() {
    let mut store = MessageStore::new();
    let m = store.post_with_draw(s("alice"), s("one"), 5);
    assert_eq!(m.id, 5);
    let second = store.post_with_draw(s("bob"), s("two"), 5);
    assert_eq!(second.id, 0);
    let third = store.post_with_draw(s("bob"), s("three"), 5);
    assert_eq!(third.id, 1);
    assert_eq!(store.get(5).unwrap().content, "one");
    assert_eq!(store.len(), 3);
}

#[test]
fn edit_is_author_only() {
    let mut store = MessageStore::new();
    let m = store.post(s("alice"), s("hi"));
    assert_eq!(store.edit(m.id, &s("bob"), s("bye")), Err(EditError::NotAuthor));
    assert_eq!(store.get(m.id).unwrap().content, "hi");
    assert_eq!(store.edit(m.id.wrapping_add(1), &s("alice"), s("bye")), Err(EditError::NotFound));
    assert_eq!(store.edit(m.id, &s("alice"), s("bye")), Ok(()));
    assert_eq!(store.get(m.id).unwrap().content, "bye");
    assert_eq!(store.get(m.id).unwrap().author, "alice");
}

#[test]
fn delete_is_author_only_and_final() {
    let mut store = MessageStore::new();
    let m = store.post(s("alice"), s("hi"));
    assert_eq!(store.delete(m.id, &s("bob")), Err(DeleteError::NotAuthor));
    assert!(store.get(m.id).is_some());
    assert_eq!(store.delete(m.id, &s("alice")), Ok(()));
    assert!(store.get(m.id).is_none());
    assert_eq!(store.len(), 0);
    assert_eq!(store.delete(m.id, &s("alice")), Err(DeleteError::NotFound));
    assert_eq!(store.edit(m.id, &s("alice"), s("again")), Err(EditError::NotFound));
}

#[test]
fn registry_register_lookup_unregister() {
    let mut reg: SessionRegistry<u8> = SessionRegistry::new();
    assert_eq!(reg.register(1, 10, s("alice")), Ok(()));
    assert_eq!(reg.register(2, 20, s("bob")), Ok(()));
    assert_eq!(reg.register(1, 30, s("carol")), Err(RegistryError::DuplicateSession));
    assert_eq!(reg.lookup_display_name(1), Some(s("alice")));
    assert_eq!(reg.outbound(2), Some(&20));
    assert_eq!(reg.lookup_display_name(3), None);
    assert_eq!(reg.len(), 2);
}

#[test]
fn unregister_is_idempotent() {
    let mut reg: SessionRegistry<u8> = SessionRegistry::new();
    reg.register(1, 10, s("alice")).unwrap();
    reg.register(2, 20, s("bob")).unwrap();
    reg.unregister(1);
    reg.unregister(1);
    reg.unregister(99);
    assert!(!reg.contains(1));
    assert_eq!(reg.lookup_display_name(2), Some(s("bob")));
    assert_eq!(reg.len(), 1);
}

#[test]
fn session_ids_are_fresh() {
    let mut reg: SessionRegistry<u8> = SessionRegistry::new();
    reg.register(4, 0, s("a")).unwrap();
    assert_eq!(reg.session_id_from_draw(9), 9);
    assert_eq!(reg.session_id_from_draw(4), 0);
    let id = reg.new_session_id();
    assert!(!reg.contains(id));
}

#[test]
fn connection_closes_once() {
    let mut reg: SessionRegistry<u8> = SessionRegistry::new();
    let mut alice = Connection::connect(&mut reg, 1, s("alice"));
    let bob = Connection::connect(&mut reg, 2, s("bob"));
    assert!(alice.is_active());
    assert_eq!(alice.display_name(), "alice");
    assert_ne!(alice.session_id(), bob.session_id());
    assert_eq!(reg.lookup_display_name(alice.session_id()), Some(s("alice")));
    assert!(alice.close(&mut reg));
    assert!(!alice.close(&mut reg));
    assert!(!alice.is_active());
    assert!(!reg.contains(alice.session_id()));
    assert_eq!(reg.lookup_display_name(bob.session_id()), Some(s("bob")));
}

#[test]
fn alice_bob_scenario() {
    let mut reg: SessionRegistry<u8> = SessionRegistry::new();
    let mut store = MessageStore::new();
    let alice = Connection::connect(&mut reg, 1, s("alice"));
    let bob = Connection::connect(&mut reg, 2, s("bob"));

    let posted = decode(frame("message", None, Some("hi"))).unwrap();
    let x = match alice.receive(&mut store, posted) {
        Some(Event::Message { id, username, content }) => {
            assert_eq!(username, "alice");
            assert_eq!(content, "hi");
            id
        }
        _ => panic!("expected a message event"),
    };
    let xs = x.to_string();

    let edit = decode(frame("edit", Some(&xs), Some("bye"))).unwrap();
    assert!(bob.receive(&mut store, edit).is_none());
    assert_eq!(store.get(x).unwrap().content, "hi");

    let edit = decode(frame("edit", Some(&xs), Some("bye"))).unwrap();
    match alice.receive(&mut store, edit) {
        Some(Event::Edit { id, content }) => {
            assert_eq!(id, x);
            assert_eq!(content, "bye");
        }
        _ => panic!("expected an edit event"),
    }
    assert_eq!(store.get(x).unwrap().content, "bye");

    let delete = decode(frame("delete", Some(&xs), None)).unwrap();
    match alice.receive(&mut store, delete) {
        Some(Event::Delete { id }) => assert_eq!(id, x),
        _ => panic!("expected a delete event"),
    }
    assert!(store.get(x).is_none());
}

#[test]
fn apply_action_refusals_publish_nothing() {
    let mut store = MessageStore::new();
    let alice = s("alice");
    let m = match apply_action(&mut store, &alice, Action::Post { content: s("hi") }) {
        Some(Event::Message { id, .. }) => id,
        _ => panic!("expected a message event"),
    };
    let bob = s("bob");
    assert!(apply_action(&mut store, &bob, Action::Delete { id: m }).is_none());
    assert!(apply_action(&mut store, &alice, Action::Edit { id: m.wrapping_add(1), content: s("x") }).is_none());
    assert_eq!(store.get(m).unwrap().content, "hi");
    assert_eq!(store.len(), 1);
}

#[test]
fn posts_keep_publisher_order() {
    let mut store = MessageStore::new();
    let alice = s("alice");
    let mut seen = Vec::new();
    for text in ["one", "two", "three"] {
        match apply_action(&mut store, &alice, Action::Post { content: s(text) }) {
            Some(Event::Message { content, .. }) => seen.push(content),
            _ => panic!("expected a message event"),
        }
    }
    assert_eq!(seen, vec![s("one"), s("two"), s("three")]);
}
