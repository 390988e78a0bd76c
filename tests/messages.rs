use presence::json::{
    authenticate_args, authorize_args, clear_activity_args, command_body, handshake_body,
    is_json, set_activity_args, Cmd,
};

#[test]
fn handshake_text() {
    assert_eq!(handshake_body(1234), br#"{"v":1,"client_id":"1234"}"#.to_vec());
    assert_eq!(handshake_body(0), br#"{"v":1,"client_id":"0"}"#.to_vec());
    assert_eq!(
        handshake_body(u64::MAX),
        br#"{"v":1,"client_id":"18446744073709551615"}"#.to_vec()
    );
}

#[test]
fn command_has_exactly_three_fields() {
    let body = command_body(&b"01ARZ3NDEKTSV4RRFFQ69G5FAV".to_vec(), &br#"{"pid":1}"#.to_vec(), Cmd::SetActivity);
    assert_eq!(
        body,
        br#"{"nonce":"01ARZ3NDEKTSV4RRFFQ69G5FAV","args":{"pid":1},"cmd":"SET_ACTIVITY"}"#.to_vec()
    );
    let v: serde_json::Value = serde_json::from_slice(&body).unwrap();
    let obj = v.as_object().unwrap();
    let mut keys: Vec<&String> = obj.keys().collect();
    keys.sort();
    assert_eq!(keys, vec!["args", "cmd", "nonce"]);
}

#[test]
fn activity_arguments() {
    assert_eq!(
        set_activity_args(77, &br#"{"type":2}"#.to_vec()),
        br#"{"pid":77,"activity":{"type":2}}"#.to_vec()
    );
    assert_eq!(clear_activity_args(77), br#"{"pid":77}"#.to_vec());
}

#[test]
fn authorize_arguments() {
    assert_eq!(
        authorize_args(99),
        br#"{"client_id":"99","scopes":["rpc","rpc.activities.write"]}"#.to_vec()
    );
}

#[test]
fn authenticate_escapes_the_token() {
    let args = authenticate_args("ab\"c\\d");
    assert_eq!(args, br#"{"access_token":"ab\"c\\d"}"#.to_vec());
    let v: serde_json::Value = serde_json::from_slice(&args).unwrap();
    assert_eq!(v["access_token"], "ab\"c\\d");
}

#[test]
fn json_acceptance() {
    assert!(is_json(b" {\"a\": [1, 2]} "));
    assert!(!is_json(b"{\"a\": }"));
    assert!(!is_json(b""));
    assert!(!is_json(b"{} {}"));
}
