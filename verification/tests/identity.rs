use discodo::http::DiscodoError;
use discodo::model::{GuildId, UserId};
use discodo::{Assignment, ClientData, Discodo};

#[test]
fn the_first_assignment_is_taken() {
    let mut discodo = Discodo::serenity("localhost", None, None);
    assert_eq!(discodo.get(UserId(42), GuildId(7)), Assignment::Assigned);
    let data = discodo.client_data();
    assert!(data.initialed);
    assert_eq!(data.user_id, UserId(42));
    assert_eq!(data.guild_id, GuildId(7));
    assert_eq!(data.shard_count, 0);
}

#[test]
fn the_second_assignment_changes_nothing() {
    let mut discodo = Discodo::serenity("localhost", None, None);
    assert_eq!(discodo.get(UserId(42), GuildId(7)), Assignment::Assigned);
    let first = discodo.client_data();
    assert_eq!(discodo.get(UserId(43), GuildId(8)), Assignment::AlreadyInitialized);
    assert_eq!(discodo.client_data(), first);
    assert_eq!(discodo.client_data().user_id, UserId(42));
    assert_eq!(discodo.client_data().guild_id, GuildId(7));
    assert_eq!(discodo.get(UserId(0), GuildId(0)), Assignment::AlreadyInitialized);
    assert_eq!(discodo.client_data(), first);
}

#[test]
fn an_assignment_leaves_the_settings() {
    let mut discodo = Discodo::serenity("node", Some(9000), Some("pw"));
    let before = discodo.config().clone();
    discodo.get(UserId(1), GuildId(2));
    assert_eq!(discodo.config(), &before);
    discodo.get(UserId(3), GuildId(4));
    assert_eq!(discodo.config(), &before);
}

#[test]
fn zero_identifiers_are_assigned_like_any_other() {
    let mut discodo = Discodo::serenity("localhost", None, None);
    assert_eq!(discodo.get(UserId(0), GuildId(0)), Assignment::Assigned);
    assert_eq!(
        discodo.client_data(),
        ClientData { shard_count: 0, initialed: true, user_id: UserId(0), guild_id: GuildId(0) }
    );
    assert_eq!(discodo.get(UserId(5), GuildId(6)), Assignment::AlreadyInitialized);
    assert_eq!(discodo.client_data().user_id, UserId(0));
}

#[test]
fn identifiers_come_from_numbers() {
    assert_eq!(UserId::from(42), UserId(42));
    assert_eq!(GuildId::from(7), GuildId(7));
    let user: UserId = 9u64.into();
    assert_eq!(user.0, 9);
    assert_eq!(UserId::default(), UserId(0));
    assert_eq!(GuildId::default(), GuildId(0));
}

#[test]
fn only_zero_is_unset() {
    assert!(UserId(0).is_unset());
    assert!(GuildId(0).is_unset());
    assert!(!UserId(1).is_unset());
    assert!(!GuildId(1).is_unset());
    assert!(!UserId(u64::MAX).is_unset());
    assert!(!GuildId(u64::MAX).is_unset());
}

#[test]
fn connect_gives_the_streaming_endpoint() {
    let discodo = Discodo::serenity("localhost", None, None);
    let url = discodo.connect().unwrap();
    assert_eq!(url.as_str(), "ws://localhost:8000/ws/");
    assert_eq!(url.scheme(), "ws");
    assert_eq!(url.host_str(), Some("localhost"));
    assert_eq!(url.port(), Some(8000));
    assert_eq!(url.path(), "/ws/");
}

#[test]
fn connect_reads_the_uri_as_a_url() {
    let discodo = Discodo::serenity("EXAMPLE.org", Some(80), None);
    let url = discodo.connect().unwrap();
    assert_eq!(url.host_str(), Some("example.org"));
    assert_eq!(url.port_or_known_default(), Some(80));
    assert_eq!(url.path(), "/ws/");
}

#[test]
fn connect_refuses_a_port_that_no_url_has() {
    let discodo = Discodo::serenity("localhost", Some(70000), None);
    assert_eq!(
        discodo.connect(),
        Err(DiscodoError::InvalidEndpoint(String::from("ws://localhost:70000/ws/")))
    );
}

#[test]
fn connect_refuses_a_host_that_no_url_has() {
    let discodo = Discodo::serenity("", None, None);
    assert_eq!(
        discodo.connect(),
        Err(DiscodoError::InvalidEndpoint(String::from("ws://:8000/ws/")))
    );
    let discodo = Discodo::serenity("a b", None, None);
    assert_eq!(
        discodo.connect(),
        Err(DiscodoError::InvalidEndpoint(String::from("ws://a b:8000/ws/")))
    );
}

#[test]
fn endpoint_hands_a_url_on() {
    let discodo = Discodo::serenity("localhost", None, None);
    let url = url::Url::parse("ws://elsewhere:1/ws/").unwrap();
    assert_eq!(discodo.endpoint(Ok(url.clone())), Ok(url));
}

#[test]
fn endpoint_quotes_the_uri_that_is_no_url() {
    let discodo = Discodo::serenity("localhost", Some(70000), None);
    for reason in [url::ParseError::InvalidPort, url::ParseError::EmptyHost] {
        assert_eq!(
            discodo.endpoint(Err(reason)),
            Err(DiscodoError::InvalidEndpoint(String::from("ws://localhost:70000/ws/")))
        );
    }
}
