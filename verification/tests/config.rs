use discodo::model::{GuildId, UserId};
use discodo::text::{join, to_decimal};
use discodo::{ClientBuilder, ClientData, Discodo, DEFAULT_PORT};

#[test]
fn new_fills_in_port_and_password() {
    let config = ClientBuilder::new("localhost", None, None);
    assert_eq!(config.host, "localhost");
    assert_eq!(config.port, 8000);
    assert_eq!(config.port, DEFAULT_PORT);
    assert_eq!(config.password, "hellodiscodo");
    assert_eq!(config.http_uri, "http://localhost:8000/");
    assert_eq!(config.ws_uri, "ws://localhost:8000/ws/");
}

#[test]
fn new_keeps_what_it_is_given() {
    let config = ClientBuilder::new("10.0.0.7", Some(8080), Some("s3cret"));
    assert_eq!(config.host, "10.0.0.7");
    assert_eq!(config.port, 8080);
    assert_eq!(config.password, "s3cret");
    assert_eq!(config.http_uri, "http://10.0.0.7:8080/");
    assert_eq!(config.ws_uri, "ws://10.0.0.7:8080/ws/");
}

#[test]
fn new_takes_one_without_the_other() {
    let config = ClientBuilder::new("node", Some(1), None);
    assert_eq!(config.port, 1);
    assert_eq!(config.password, "hellodiscodo");
    assert_eq!(config.http_uri, "http://node:1/");
    let config = ClientBuilder::new("node", None, Some(""));
    assert_eq!(config.port, 8000);
    assert_eq!(config.password, "");
    assert_eq!(config.ws_uri, "ws://node:8000/ws/");
}

#[test]
fn new_writes_any_port_in_decimal() {
    let config = ClientBuilder::new("h", Some(0), None);
    assert_eq!(config.http_uri, "http://h:0/");
    assert_eq!(config.ws_uri, "ws://h:0/ws/");
    let config = ClientBuilder::new("h", Some(65535), None);
    assert_eq!(config.http_uri, "http://h:65535/");
    let config = ClientBuilder::new("h", Some(usize::MAX), None);
    assert_eq!(config.http_uri, format!("http://h:{}/", usize::MAX));
    assert_eq!(config.ws_uri, format!("ws://h:{}/ws/", usize::MAX));
}

#[test]
fn new_does_not_touch_the_host() {
    let config = ClientBuilder::new("", None, None);
    assert_eq!(config.host, "");
    assert_eq!(config.http_uri, "http://:8000/");
    let config = ClientBuilder::new("[::1]", Some(9), None);
    assert_eq!(config.http_uri, "http://[::1]:9/");
    let config = ClientBuilder::new("name with space", Some(9), None);
    assert_eq!(config.ws_uri, "ws://name with space:9/ws/");
}

#[test]
fn decimal_of_small_numbers() {
    assert_eq!(to_decimal(0), "0");
    assert_eq!(to_decimal(7), "7");
    assert_eq!(to_decimal(9), "9");
    assert_eq!(to_decimal(10), "10");
    assert_eq!(to_decimal(42), "42");
    assert_eq!(to_decimal(100), "100");
    assert_eq!(to_decimal(8000), "8000");
    assert_eq!(to_decimal(1234567890), "1234567890");
}

#[test]
fn decimal_of_the_largest_number() {
    assert_eq!(to_decimal(u64::MAX), "18446744073709551615");
    assert_eq!(to_decimal(u64::MAX - 1), "18446744073709551614");
}

#[test]
fn decimal_agrees_with_the_standard_notation() {
    let mut n: u64 = 0;
    while n < 3000 {
        assert_eq!(to_decimal(n), n.to_string());
        n += 1;
    }
    let mut n: u64 = 1;
    let mut i = 0;
    while i < 63 {
        assert_eq!(to_decimal(n), n.to_string());
        assert_eq!(to_decimal(n - 1), (n - 1).to_string());
        assert_eq!(to_decimal(n + 1), (n + 1).to_string());
        n *= 2;
        i += 1;
    }
}

#[test]
fn join_appends() {
    assert_eq!(join("", ""), "");
    assert_eq!(join("a", ""), "a");
    assert_eq!(join("", "b"), "b");
    assert_eq!(join("http://h:1/", "seek"), "http://h:1/seek");
}

#[test]
fn a_new_client_has_no_identity() {
    let discodo = Discodo::serenity("localhost", None, None);
    assert_eq!(discodo.config(), &ClientBuilder::new("localhost", None, None));
    let data = discodo.client_data();
    assert_eq!(data, ClientData::default());
    assert!(!data.initialed);
    assert_eq!(data.shard_count, 0);
    assert_eq!(data.user_id, UserId(0));
    assert_eq!(data.guild_id, GuildId(0));
}

#[test]
fn a_new_client_keeps_its_settings() {
    let discodo = Discodo::serenity("example.org", Some(81), Some("pw"));
    assert_eq!(discodo.config().host, "example.org");
    assert_eq!(discodo.config().port, 81);
    assert_eq!(discodo.config().password, "pw");
    assert_eq!(discodo.config().http_uri, "http://example.org:81/");
    assert_eq!(discodo.config().ws_uri, "ws://example.org:81/ws/");
}
