use sha2::Digest;
use waku_message::crypto::VerifyingKey;
use waku_message::errors::MessageError;
use waku_message::message::WakuMessage;
use waku_message::message::WAKU_ENC_VERSION;

const TOPIC: &str = "test-topic";

fn json_body() -> serde_json::Value {
    let mut map = serde_json::Map::new();
    map.insert(
        "hello".to_string(),
        serde_json::Value::String("world".to_string()),
    );
    serde_json::Value::Object(map)
}

#[test]
fn test_create_content_topic() {
    let expected = "/dria/0/test-topic/proto".to_string();
    assert_eq!(WakuMessage::create_content_topic(TOPIC), expected);
}

#[test]
fn test_display_message() {
    let message = WakuMessage::new(b"hello world", "test-topic");
    println!("{}", message.display_string());
}

#[test]
fn test_unsigned_message() {
    // create payload & message
    let body = json_body();
    let payload = serde_json::to_vec(&body).expect("Should serialize");
    let message = WakuMessage::new(&payload, TOPIC);

    // decode message
    let message_body = message.decode_payload().expect("Should decode");
    let body: serde_json::Value =
        serde_json::from_slice(&message_body).expect("Should deserialize");
    assert_eq!(
        serde_json::to_string(&body).expect("Should stringify"),
        "{\"hello\":\"world\"}"
    );
    assert_eq!(message.content_topic, "/dria/0/test-topic/proto");
    assert_eq!(message.version, WAKU_ENC_VERSION);
    assert_eq!(message.ephemeral, true);
    assert!(message.timestamp > 0);

    let parsed_bytes = message.parse_payload(false).expect("Should decode");
    let parsed_body: serde_json::Value =
        serde_json::from_slice(&parsed_bytes).expect("Should deserialize");
    assert_eq!(body, parsed_body);
}

#[test]
fn test_signed_message() {
    let mut rng = rand::thread_rng();
    let sk = libsecp256k1::SecretKey::random(&mut rng);

    // create payload & message with signature & body
    let body = json_body();
    let body_str = serde_json::to_string(&body).expect("Should stringify");
    let digest: [u8; 32] = sha2::Sha256::digest(body_str.as_bytes()).into();
    let (signature, recid) = libsecp256k1::sign(&libsecp256k1::Message::parse(&digest), &sk);
    let signature_str = format!(
        "{}{}",
        hex::encode(signature.serialize()),
        hex::encode([recid.serialize()])
    );
    let payload = format!("{}{}", signature_str, body_str);
    let message = WakuMessage::new(payload.as_bytes(), TOPIC);

    // decode message
    let message_body = message.decode_payload().expect("Should decode");
    let body: serde_json::Value =
        serde_json::from_slice(&message_body[130..]).expect("Should parse");
    assert_eq!(
        serde_json::to_string(&body).expect("Should stringify"),
        "{\"hello\":\"world\"}"
    );
    assert_eq!(message.content_topic, "/dria/0/test-topic/proto");
    assert_eq!(message.version, WAKU_ENC_VERSION);
    assert_eq!(message.ephemeral, true);
    assert!(message.timestamp > 0);

    // check signature
    let pk = libsecp256k1::PublicKey::from_secret_key(&sk);
    let key = VerifyingKey::from_bytes(&pk.serialize()).expect("Should parse key");
    assert!(message.is_signed(&key).expect("Should check signature"));

    let parsed_bytes = message.parse_payload(true).expect("Should decode");
    let parsed_body: serde_json::Value =
        serde_json::from_slice(&parsed_bytes).expect("Should deserialize");
    assert_eq!(body, parsed_body);
}

#[test]
fn test_signed_message_rejects_other_key() {
    let mut rng = rand::thread_rng();
    let sk_a = libsecp256k1::SecretKey::random(&mut rng);
    let sk_b = libsecp256k1::SecretKey::random(&mut rng);
    assert_ne!(sk_a, sk_b);

    let body = b"some body bytes";
    let digest: [u8; 32] = sha2::Sha256::digest(body).into();
    let (signature, recid) = libsecp256k1::sign(&libsecp256k1::Message::parse(&digest), &sk_a);

    let packed = waku_message::codec::pack_signed(&signature.serialize(), recid.serialize(), body);
    let message = WakuMessage::new(&packed, TOPIC);

    let pk_a = libsecp256k1::PublicKey::from_secret_key(&sk_a);
    let key_a = VerifyingKey::from_bytes(&pk_a.serialize()).expect("Should parse key");
    assert_eq!(message.is_signed(&key_a), Ok(true));

    let pk_b = libsecp256k1::PublicKey::from_secret_key(&sk_b);
    let key_b = VerifyingKey::from_bytes(&pk_b.serialize()).expect("Should parse key");
    assert_eq!(message.is_signed(&key_b), Ok(false));
}

#[test]
fn test_parse_signed_without_checking_first() {
    // parsing a signed payload does not need is_signed to run first
    let signature = [7u8; 64];
    let body = b"opaque body";
    let packed = waku_message::codec::pack_signed(&signature, 0, body);
    let message = WakuMessage::new(&packed, TOPIC);
    let parsed = message.parse_payload(true).expect("Should decode");
    assert_eq!(parsed.as_slice(), body.as_slice());
}

#[test]
fn test_pack_signed_layout() {
    let packed = waku_message::codec::pack_signed(&[0u8; 64], 1, b"body");
    assert_eq!(packed.len(), 130 + 4);
    assert_eq!(&packed[..128], [b'0'; 128].as_slice());
    assert_eq!(&packed[128..130], b"01".as_slice());
    assert_eq!(&packed[130..], b"body".as_slice());
}

#[test]
fn test_payload_is_standard_base64() {
    let message = WakuMessage::new(b"hello world", TOPIC);
    assert_eq!(message.payload, "aGVsbG8gd29ybGQ=");
}

#[test]
fn test_payload_round_trip_binary() {
    let bytes = vec![0u8, 159, 146, 150, 255, 1];
    let message = WakuMessage::new(&bytes, TOPIC);
    assert_eq!(message.decode_payload().expect("Should decode"), bytes);
    assert_eq!(
        waku_message::codec::payload_round_trip(&bytes, TOPIC),
        bytes
    );
    assert_eq!(
        waku_message::codec::unsigned_parse_round_trip(&bytes, TOPIC),
        bytes
    );
    assert_eq!(
        waku_message::codec::signed_parse_round_trip(&[3u8; 64], 1, &bytes, TOPIC),
        bytes
    );
}

#[test]
fn test_decode_error_on_invalid_base64() {
    let message = WakuMessage {
        payload: "not base64!!".to_string(),
        content_topic: WakuMessage::create_content_topic(TOPIC),
        version: 0,
        timestamp: 1,
        ephemeral: true,
    };
    assert_eq!(message.decode_payload(), Err(MessageError::Base64Decode));
    assert_eq!(message.parse_payload(false), Err(MessageError::Base64Decode));

    let key_bytes = libsecp256k1::PublicKey::from_secret_key(
        &libsecp256k1::SecretKey::random(&mut rand::thread_rng()),
    )
    .serialize();
    let key = VerifyingKey::from_bytes(&key_bytes).expect("Should parse key");
    assert_eq!(message.is_signed(&key), Err(MessageError::Base64Decode));
}

#[test]
fn test_short_signed_payload_is_malformed() {
    let message = WakuMessage::new(b"short", TOPIC);
    let key_bytes = libsecp256k1::PublicKey::from_secret_key(
        &libsecp256k1::SecretKey::random(&mut rand::thread_rng()),
    )
    .serialize();
    let key = VerifyingKey::from_bytes(&key_bytes).expect("Should parse key");
    assert_eq!(
        message.parse_payload(true),
        Err(MessageError::MalformedPayload)
    );
    assert_eq!(message.is_signed(&key), Err(MessageError::MalformedPayload));
}

#[test]
fn test_non_hex_signature_prefix() {
    let payload = vec![b'z'; 140];
    let message = WakuMessage::new(&payload, TOPIC);
    let key_bytes = libsecp256k1::PublicKey::from_secret_key(
        &libsecp256k1::SecretKey::random(&mut rand::thread_rng()),
    )
    .serialize();
    let key = VerifyingKey::from_bytes(&key_bytes).expect("Should parse key");
    assert_eq!(message.is_signed(&key), Err(MessageError::HexDecode));
}

#[test]
fn test_overflowing_signature_fails_to_parse() {
    // 128 'f' characters decode to 64 0xff bytes: r and s overflow the order
    let packed = waku_message::codec::pack_signed(&[0xffu8; 64], 0, b"body");
    let message = WakuMessage::new(&packed, TOPIC);
    let key_bytes = libsecp256k1::PublicKey::from_secret_key(
        &libsecp256k1::SecretKey::random(&mut rand::thread_rng()),
    )
    .serialize();
    let key = VerifyingKey::from_bytes(&key_bytes).expect("Should parse key");
    assert_eq!(message.is_signed(&key), Err(MessageError::SignatureParse));
}

#[test]
fn test_invalid_public_key_bytes() {
    assert!(VerifyingKey::from_bytes(&[1u8, 2, 3]).is_err());
}

#[test]
fn test_display_string_exact() {
    let message = WakuMessage {
        payload: "aGVsbG8=".to_string(), // base64 of "hello"
        content_topic: WakuMessage::create_content_topic("x"),
        version: 0,
        timestamp: 42,
        ephemeral: true,
    };
    assert_eq!(
        message.display_string(),
        "WakuMessage /dria/0/x/proto at 42\nhello"
    );
}

#[test]
fn test_display_string_falls_back_to_base64() {
    // valid base64 of bytes that are not UTF-8 text
    let message = WakuMessage::new(&[0xffu8, 0xfe], TOPIC);
    let shown = message.display_string();
    assert!(shown.ends_with(&message.payload));
}

#[test]
fn test_error_descriptions() {
    assert_eq!(
        MessageError::Base64Decode.as_str(),
        "payload is not valid base64"
    );
}
