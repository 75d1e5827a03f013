//! Protocol flow, envelope and fan-out tests.

use crypto::mac::Mac;
use loxws::err::{AuthenticationError, JwtRequestError, KeyExchangeError, RequestError, StateError};
use loxws::events::{EventTable, TextEvent, ValueEvent};
use loxws::flows::{
    ack_reply, authenticate_command, authwithtoken_reply, getjwt_command, getjwt_reply,
    getkey2_command, getkey2_reply, getkey_reply, io_command, jwt_payload_segment, loxapp3_reply,
    loxapp3_timestamp_reply, route_message, AuthInfo, Engine, Phase, Route,
};
use loxws::frame::Message;
use loxws::hashing::{hash_password, HashAlg};
use loxws::hexstr::hex_lower;
use loxws::session::Session;
use loxws::state::{flatten_tables, snapshot_get, StateValue};

fn test_session() -> Session {
    Session::from_material(
        (0u8..32).collect(),
        (100u8..116).collect(),
        vec![0xab, 0xcd],
        b"wrapped".to_vec(),
    )
}

#[test]
fn key_exchange_success_adopts_session() {
    let mut engine = Engine::new();
    assert!(matches!(engine.phase(), Phase::Connected));
    let reply = Message::Text(r#"{"LL":{"Code":"200","value":"YWJj"}}"#.to_string());
    let remote = engine.complete_key_exchange(test_session(), &reply).unwrap();
    assert_eq!(remote, vec![0x61, 0x62, 0x63]);
    assert!(matches!(engine.phase(), Phase::KeyExchanged));
    // Encrypted commands are possible now.
    assert!(engine.encrypted_command("jdev/sys/getkey").is_ok());
}

#[test]
fn key_exchange_failure_keeps_session_out() {
    let mut engine = Engine::new();
    let reply = Message::Text(r#"{"LL":{"Code":"401","value":""}}"#.to_string());
    let err = engine.complete_key_exchange(test_session(), &reply).unwrap_err();
    assert_eq!(err, KeyExchangeError::InvalidStatusCode("401".to_string()));
    assert!(matches!(engine.phase(), Phase::Connected));
    assert_eq!(
        engine.encrypted_command("jdev/sys/getkey").unwrap_err(),
        StateError::PermissionDenied
    );
}

#[test]
fn key_exchange_accepts_padded_remote_key() {
    let mut engine = Engine::new();
    let reply = Message::Text(r#"{"LL":{"Code":"200","value":"YWI="}}"#.to_string());
    let remote = engine.complete_key_exchange(test_session(), &reply).unwrap();
    assert_eq!(remote, b"ab".to_vec());
}

#[test]
fn url_safe_payload_characters_are_accepted() {
    // A `?` (0x3f) on a group boundary encodes as the sextet 63: `_` in the
    // URL-safe alphabet the token's segments use.
    let json = r#"{"user":"b?????"}"#;
    let payload = base64::encode_config(json.as_bytes(), base64::URL_SAFE_NO_PAD);
    assert!(payload.contains('_'));
    let token = format!("h.{}.s", payload);
    let cmd = authenticate_command(&token, "4142").unwrap();
    assert!(cmd.ends_with("/b?????"));
}

#[test]
fn key_exchange_reply_shape_errors() {
    let mut engine = Engine::new();
    let err = engine
        .complete_key_exchange(test_session(), &Message::KeepAlive)
        .unwrap_err();
    assert_eq!(err, KeyExchangeError::InvalidMessageType);
    let reply = Message::Text(r#"{"LL":{"value":"x"}}"#.to_string());
    let err = engine.complete_key_exchange(test_session(), &reply).unwrap_err();
    assert_eq!(err, KeyExchangeError::JsonMissingField("LL.Code"));
    let reply = Message::Text(r#"{"LL":{"Code":"200"}}"#.to_string());
    let err = engine.complete_key_exchange(test_session(), &reply).unwrap_err();
    assert_eq!(err, KeyExchangeError::JsonMissingField("LL.value"));
    let reply = Message::Text(r#"{"LL":{"Code":"200","value":"!!"}}"#.to_string());
    let err = engine.complete_key_exchange(test_session(), &reply).unwrap_err();
    assert_eq!(err, KeyExchangeError::KeyDecode);
}

#[test]
fn getkey_reply_reads_capital_code() {
    let reply = Message::Text(r#"{"LL":{"Code":"200","value":"41424344"}}"#.to_string());
    assert_eq!(getkey_reply(&reply).unwrap(), "41424344");
    let reply = Message::Text(r#"{"LL":{"code":"200","value":"x"}}"#.to_string());
    assert_eq!(
        getkey_reply(&reply).unwrap_err(),
        RequestError::JsonMissingField("LL.Code")
    );
}

#[test]
fn getkey2_reply_narrows_hash_alg() {
    let reply = Message::Text(
        r#"{"LL":{"code":"200","value":{"key":"4142","salt":"s1","hashAlg":"SHA256"}}}"#.to_string(),
    );
    let info = getkey2_reply(&reply).unwrap();
    assert_eq!(info.key, "4142");
    assert_eq!(info.salt, "s1");
    assert!(matches!(info.alg, HashAlg::Sha256));

    let reply = Message::Text(
        r#"{"LL":{"code":"200","value":{"key":"4142","salt":"s1","hashAlg":"MD5"}}}"#.to_string(),
    );
    assert_eq!(
        getkey2_reply(&reply).unwrap_err(),
        JwtRequestError::UnsupportedHashAlg("MD5".to_string())
    );

    let reply = Message::Text(r#"{"LL":{"code":"200","value":{"salt":"s1"}}}"#.to_string());
    assert_eq!(
        getkey2_reply(&reply).unwrap_err(),
        JwtRequestError::JsonMissingField("LL.value.key")
    );

    let reply = Message::Text(r#"{"LL":{"code":"403","value":{}}}"#.to_string());
    assert_eq!(
        getkey2_reply(&reply).unwrap_err(),
        JwtRequestError::KeyRequest(RequestError::InvalidStatusCode("403".to_string()))
    );
}

#[test]
fn getkey2_command_form() {
    assert_eq!(getkey2_command("admin"), "jdev/sys/getkey2/admin");
}

#[test]
fn getjwt_command_form() {
    let auth = AuthInfo {
        key: "4a656665".to_string(),
        salt: "a1b2".to_string(),
        alg: HashAlg::Sha1,
    };
    let cmd = getjwt_command("admin", "secret", 4, "client-uuid", "myapp", &auth).unwrap();
    let hash = hash_password("admin", "secret", b"Jefe", "a1b2", HashAlg::Sha1);
    let expected = format!("jdev/sys/getjwt/{}/admin/4/client-uuid/myapp", hex_lower(&hash));
    assert_eq!(cmd, expected);

    let bad = AuthInfo { key: "xyz".to_string(), salt: "s".to_string(), alg: HashAlg::Sha1 };
    assert_eq!(
        getjwt_command("a", "b", 2, "u", "i", &bad).unwrap_err(),
        JwtRequestError::KeyDecode
    );
}

#[test]
fn getjwt_reply_strips_carriage_returns() {
    let raw = "{\"LL\":{\"code\":\"200\",\r\n\"value\":{\"token\":\"tok\"}}}".to_string();
    let clean = getjwt_reply(&Message::Text(raw)).unwrap();
    assert!(!clean.contains('\r'));
    assert!(clean.contains("\"token\":\"tok\""));

    let raw = "{\"LL\":{\"code\":\"420\",\"value\":{}}}".to_string();
    assert_eq!(
        getjwt_reply(&Message::Text(raw)).unwrap_err(),
        JwtRequestError::InvalidStatusCode("420".to_string())
    );
}

#[test]
fn jwt_payload_segment_splits_on_dots() {
    assert_eq!(jwt_payload_segment("aaa.bbb.ccc").unwrap(), "bbb");
    assert_eq!(jwt_payload_segment("aaa.bbb").unwrap(), "bbb");
    assert_eq!(jwt_payload_segment("a..c").unwrap(), "");
    assert!(jwt_payload_segment("nodots").is_none());
}

#[test]
fn authenticate_command_takes_user_from_token() {
    let payload = base64::encode_config(br#"{"user":"bob"}"#, base64::URL_SAFE_NO_PAD);
    let token = format!("head.{}.sig", payload);
    let cmd = authenticate_command(&token, "4a656665").unwrap();

    let mut mac = crypto::hmac::Hmac::new(crypto::sha1::Sha1::new(), b"Jefe");
    mac.input(token.as_bytes());
    let expected = format!("authwithtoken/{}/bob", hex_lower(&mac.result().code().to_vec()));
    assert_eq!(cmd, expected);
}

#[test]
fn authenticate_command_errors() {
    assert_eq!(
        authenticate_command("a.b.c", "zz").unwrap_err(),
        AuthenticationError::KeyDecode
    );
    assert_eq!(
        authenticate_command("nodots", "4142").unwrap_err(),
        AuthenticationError::JwtBadFormat
    );
    assert_eq!(
        authenticate_command("a.!!.c", "4142").unwrap_err(),
        AuthenticationError::JwtDecode
    );
    // `+` and `/` belong to the standard alphabet, not the URL-safe one the
    // token's segments use.
    assert_eq!(
        authenticate_command("a.+/8.c", "4142").unwrap_err(),
        AuthenticationError::JwtDecode
    );
    let payload = base64::encode_config(br#"{"nouser":1}"#, base64::URL_SAFE_NO_PAD);
    let token = format!("h.{}.s", payload);
    assert_eq!(
        authenticate_command(&token, "4142").unwrap_err(),
        AuthenticationError::JsonMissingField("LL.value.user")
    );
}

#[test]
fn authwithtoken_reply_requires_object_value() {
    let reply = Message::Text(r#"{"LL":{"code":"200","value":{"validUntil":1}}}"#.to_string());
    assert!(authwithtoken_reply(&reply).is_ok());
    let reply = Message::Text(r#"{"LL":{"code":"200","value":"1"}}"#.to_string());
    assert_eq!(
        authwithtoken_reply(&reply).unwrap_err(),
        AuthenticationError::JsonMissingField("LL.value")
    );
}

#[test]
fn loxapp3_replies() {
    let reply = Message::BinaryText(r#"{"lastModified":"x"}"#.to_string());
    assert_eq!(loxapp3_reply(reply).unwrap(), r#"{"lastModified":"x"}"#);
    let reply = Message::Text("nope".to_string());
    assert!(loxapp3_reply(reply).is_err());

    let reply = Message::Text(r#"{"LL":{"Code":"200","value":"2024-01-01"}}"#.to_string());
    assert_eq!(loxapp3_timestamp_reply(&reply).unwrap(), "2024-01-01");
}

#[test]
fn ack_reply_requires_the_one() {
    let reply = Message::Text(r#"{"LL":{"Code":"200","value":"1"}}"#.to_string());
    assert!(ack_reply(&reply).is_ok());
    let reply = Message::Text(r#"{"LL":{"Code":"200","value":"0"}}"#.to_string());
    assert_eq!(ack_reply(&reply).unwrap_err(), RequestError::UnexpectedValue);
    let reply = Message::Text(r#"{"LL":{"Code":"500","value":"1"}}"#.to_string());
    assert_eq!(
        ack_reply(&reply).unwrap_err(),
        RequestError::InvalidStatusCode("500".to_string())
    );
    assert_eq!(ack_reply(&Message::KeepAlive).unwrap_err(), RequestError::InvalidMessageType);
}

#[test]
fn io_command_form() {
    assert_eq!(io_command("uuid-1", "on"), "jdev/sps/io/uuid-1/on");
}

#[test]
fn phases_move_forward() {
    let mut engine = Engine::new();
    let reply = Message::Text(r#"{"LL":{"Code":"200","value":"YWJj"}}"#.to_string());
    engine.complete_key_exchange(test_session(), &reply).unwrap();
    engine.complete_authentication();
    assert!(matches!(engine.phase(), Phase::Authenticated));
    engine.complete_subscription();
    assert!(matches!(engine.phase(), Phase::Subscribed));
}

#[test]
fn routing_splits_events_from_replies() {
    assert!(matches!(route_message(Message::KeepAlive), Route::Swallowed));
    assert!(matches!(route_message(Message::OutOfServiceIndicator), Route::Swallowed));
    let table = EventTable::ValueEvents(vec![]);
    assert!(matches!(route_message(Message::EventTable(table)), Route::Event(_)));
    let msg = Message::Text("x".to_string());
    assert!(matches!(route_message(msg), Route::Reply(Message::Text(_))));
}

#[test]
fn snapshot_folds_tables_in_arrival_order() {
    let tables = vec![
        EventTable::ValueEvents(vec![
            ValueEvent { uuid: "u1".to_string(), value: 1.0f64.to_bits() },
            ValueEvent { uuid: "u2".to_string(), value: 2.0f64.to_bits() },
        ]),
        EventTable::TextEvents(vec![TextEvent {
            uuid: "u3".to_string(),
            icon: "i3".to_string(),
            text: "hello".to_string(),
        }]),
        EventTable::ValueEvents(vec![ValueEvent { uuid: "u1".to_string(), value: 9.0f64.to_bits() }]),
    ];
    let pairs = flatten_tables(&tables);
    assert_eq!(pairs.len(), 4);
    assert_eq!(pairs[0].0, "u1");
    assert_eq!(pairs[1].0, "u2");
    assert_eq!(pairs[2].0, "u3");
    assert_eq!(pairs[3].0, "u1");

    // The later update to u1 wins.
    match snapshot_get(&pairs, &"u1".to_string()).unwrap() {
        StateValue::Value(bits) => assert_eq!(f64::from_bits(*bits), 9.0),
        other => panic!("unexpected state {:?}", other),
    }
    match snapshot_get(&pairs, &"u3".to_string()).unwrap() {
        StateValue::Text(t, icon) => {
            assert_eq!(t, "hello");
            assert_eq!(icon, "i3");
        }
        other => panic!("unexpected state {:?}", other),
    }
    assert!(snapshot_get(&pairs, &"absent".to_string()).is_none());
}
