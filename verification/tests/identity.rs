use socks_connector::authority::format_authority;
use socks_connector::connection::Connection;
use socks_connector::identity::Identity;

#[test]
fn identity_keeps_the_text_it_was_parsed_from() {
    let id = Identity::parse(String::from("example-service.onion:80")).unwrap();
    assert_eq!(id.as_str(), "example-service.onion:80");
}

#[test]
fn identity_holds_the_uri_of_its_text() {
    let id = Identity::parse(format_authority("example-service.onion", 80)).unwrap();
    assert_eq!(id.uri().host(), Some("example-service.onion"));
    assert_eq!(id.uri().port_u16(), Some(80));
    assert_eq!(id.uri().scheme_str(), None);
    let uri = id.into_uri();
    assert_eq!(uri.to_string(), "example-service.onion:80");
}

#[test]
fn identity_rejects_the_empty_text() {
    let refused = Identity::parse(String::new()).unwrap_err();
    assert_eq!(refused.as_str(), "");
    assert_eq!(refused.into_reason().to_string(), "empty string");
}

#[test]
fn identity_rejects_a_text_with_a_space() {
    let refused = Identity::parse(String::from("bad host:80")).unwrap_err();
    assert_eq!(refused.as_str(), "bad host:80");
    assert_eq!(refused.reason().to_string(), "invalid uri character");
}

#[test]
fn identity_rejects_a_text_with_two_ports() {
    let refused = Identity::parse(String::from("localhost:8080:3030")).unwrap_err();
    assert_eq!(refused.as_str(), "localhost:8080:3030");
    assert_eq!(refused.reason().to_string(), "invalid authority");
}

#[test]
fn identity_accepts_an_address_literal() {
    let id = Identity::parse(String::from("127.0.0.1:9050")).unwrap();
    assert_eq!(id.as_str(), "127.0.0.1:9050");
    assert_eq!(id.uri().host(), Some("127.0.0.1"));
}

#[test]
fn connection_binds_a_stream_to_an_identity() {
    let id = Identity::parse(String::from("example.org:443")).unwrap();
    let conn = Connection::new(7u32, id);
    assert_eq!(conn.identity(), "example.org:443");
    assert_eq!(*conn.get_ref(), 7);
    assert_eq!(conn.uri().port_u16(), Some(443));
    let (stream, id) = conn.into_parts();
    assert_eq!(stream, 7);
    assert_eq!(id.as_str(), "example.org:443");
}

#[test]
fn connection_from_parsed_follows_the_parser() {
    let good = Connection::from_parsed(1u8, Identity::parse(String::from("example.org:443")));
    assert_eq!(good.unwrap().identity(), "example.org:443");
    let bad = Connection::from_parsed(1u8, Identity::parse(String::from("no uri:443")));
    assert_eq!(bad.unwrap_err().as_str(), "no uri:443");
}
