use mailbox_relay::role::Role;
use mailbox_relay::text::starts_with;

#[test]
fn alice_path_is_the_initiator() {
    assert_eq!(Role::from_path("/alice/mailbox/abc"), Role::Initiator);
    assert_eq!(Role::from_path("/alice/"), Role::Initiator);
    assert_eq!(Role::from_path("/alice/\u{e9}\u{4e16}"), Role::Initiator);
}

#[test]
fn every_other_path_is_the_responder() {
    assert_eq!(Role::from_path("/bob/mailbox/abc"), Role::Responder);
    assert_eq!(Role::from_path(""), Role::Responder);
    assert_eq!(Role::from_path("/"), Role::Responder);
    assert_eq!(Role::from_path("/alice"), Role::Responder);
    assert_eq!(Role::from_path("/alicex/mailbox/abc"), Role::Responder);
    assert_eq!(Role::from_path("alice/mailbox/abc"), Role::Responder);
    assert_eq!(Role::from_path("/Alice/mailbox/abc"), Role::Responder);
    assert_eq!(Role::from_path("/x/alice/mailbox/abc"), Role::Responder);
    assert_eq!(Role::from_path("/\u{e9}lice/"), Role::Responder);
}

#[test]
fn peer_is_the_other_role() {
    assert_eq!(Role::Initiator.peer(), Role::Responder);
    assert_eq!(Role::Responder.peer(), Role::Initiator);
    assert_eq!(Role::Initiator.peer().peer(), Role::Initiator);
}

#[test]
fn role_names() {
    assert_eq!(Role::Initiator.name(), "alice");
    assert_eq!(Role::Responder.name(), "bob");
}

#[test]
fn starts_with_agrees_with_std() {
    let cases = [
        ("", ""),
        ("abc", ""),
        ("", "a"),
        ("abc", "abc"),
        ("abc", "abcd"),
        ("abc", "ab"),
        ("abc", "b"),
        ("\u{e9}t\u{e9}", "\u{e9}"),
        ("\u{e9}t\u{e9}", "e"),
        ("/alice/x", "/alice/"),
    ];
    for (s, prefix) in cases {
        assert_eq!(starts_with(s, prefix), s.starts_with(prefix));
    }
}
