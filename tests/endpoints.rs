use potatomesh_matrix_bridge::endpoints::{
    api_base, auth_query, auth_query_with, display_name_url, display_name_url_with, health_url,
    join_room_url, join_room_url_with, messages_url, node_url, register_url, register_url_with,
    send_message_url, send_message_url_with, versions_url,
};

#[test]
fn test_messages_url() {
    assert_eq!(messages_url("http://localhost:8080"), "http://localhost:8080/api/messages");
}

#[test]
fn test_messages_url_with_trailing_slash() {
    assert_eq!(messages_url("http://localhost:8080/"), "http://localhost:8080/api/messages");
}

#[test]
fn test_messages_url_with_existing_api_suffix() {
    assert_eq!(messages_url("http://localhost:8080/api/"), "http://localhost:8080/api/messages");
}

#[test]
fn test_node_url() {
    assert_eq!(
        node_url("http://localhost:8080", "!1234"),
        "http://localhost:8080/api/nodes/!1234"
    );
}

#[test]
fn api_base_variants() {
    assert_eq!(api_base("https://potatomesh.net/api"), "https://potatomesh.net/api");
    assert_eq!(api_base("https://potatomesh.net//"), "https://potatomesh.net/api");
    assert_eq!(api_base("https://potatomesh.net/apix"), "https://potatomesh.net/apix/api");
}

#[test]
fn health_url_strips_trailing_slashes() {
    assert_eq!(health_url("http://localhost:8080/"), "http://localhost:8080/version");
    assert_eq!(health_url("http://localhost:8080"), "http://localhost:8080/version");
}

#[test]
fn auth_query_encodes_token() {
    assert_eq!(auth_query("AS_TOKEN"), "access_token=AS_TOKEN");
    assert_eq!(auth_query("a b&c"), "access_token=a%20b%26c");
}

#[test]
fn matrix_urls() {
    assert_eq!(
        register_url("http://hs", "AS_TOKEN"),
        "http://hs/_matrix/client/v3/register?kind=user&access_token=AS_TOKEN"
    );
    assert_eq!(
        display_name_url("http://hs", "@potato_abcd1234:example.org", "AS_TOKEN"),
        "http://hs/_matrix/client/v3/profile/%40potato_abcd1234%3Aexample.org/displayname?user_id=%40potato_abcd1234%3Aexample.org&access_token=AS_TOKEN"
    );
    assert_eq!(
        join_room_url("http://hs", "!roomid:example.org", "@p:example.org", "AS_TOKEN"),
        "http://hs/_matrix/client/v3/join/%21roomid%3Aexample.org?user_id=%40p%3Aexample.org&access_token=AS_TOKEN"
    );
    assert_eq!(
        send_message_url("http://hs", "!roomid:example.org", 1700000000123, "@p:example.org", "AS_TOKEN"),
        "http://hs/_matrix/client/v3/rooms/%21roomid%3Aexample.org/send/m.room.message/1700000000123?user_id=%40p%3Aexample.org&access_token=AS_TOKEN"
    );
    assert_eq!(versions_url("http://hs"), "http://hs/_matrix/client/versions");
}

#[test]
fn matrix_urls_from_encoded_parts() {
    assert_eq!(auth_query_with("T%20K"), "access_token=T%20K");
    assert_eq!(
        register_url_with("http://hs", "access_token=X"),
        "http://hs/_matrix/client/v3/register?kind=user&access_token=X"
    );
    assert_eq!(
        display_name_url_with("http://hs", "%40u", "access_token=X"),
        "http://hs/_matrix/client/v3/profile/%40u/displayname?user_id=%40u&access_token=X"
    );
    assert_eq!(
        join_room_url_with("http://hs", "%21r", "%40u", "access_token=X"),
        "http://hs/_matrix/client/v3/join/%21r?user_id=%40u&access_token=X"
    );
    assert_eq!(
        send_message_url_with("http://hs", "%21r", 0, "%40u", "access_token=X"),
        "http://hs/_matrix/client/v3/rooms/%21r/send/m.room.message/0?user_id=%40u&access_token=X"
    );
}
