use hmac::crypto_mac::InvalidKeyLength;
use objects::payload::Payload;
use objects::signing::{canonical_query_string, sign, signature_from_tag, SignError};

const SECRET: &str =
    "kQH5HW/8p1uGOVjbgWA7FunAmGO8lsSUXNsu3eow76sz84Q18fWxnyRzBHCd3pd5nE9qa99HAZtuZuj6F1huXg==";

const ADD_ORDER_SIGNATURE: &str =
    "4/dpxb3iT4tp/ZCVEwSnEsLxx0bqyhLpdfOpc6fn7OR8+UClSV5n9E6aSS8MPtnRfp32bAb0nmbRn6H8ndwLUQ==";

fn payload_of(entries: &[(&str, &str)]) -> Payload {
    let mut payload = Payload::new();
    for (key, value) in entries {
        payload.insert(key.to_string(), value.to_string());
    }
    payload
}

fn add_order() -> Payload {
    payload_of(&[
        ("nonce", "1616492376594"),
        ("ordertype", "limit"),
        ("pair", "XBTUSD"),
        ("price", "37500"),
        ("type", "buy"),
        ("volume", "1.25"),
    ])
}

#[test]
fn canonical_string_starts_with_the_nonce() {
    let canonical = canonical_query_string("1616492376594", &add_order());
    assert_eq!(
        canonical,
        "nonce=1616492376594&ordertype=limit&pair=XBTUSD&price=37500&type=buy&volume=1.25"
    );
    assert!(canonical.starts_with("nonce=1616492376594"));
}

#[test]
fn canonical_string_of_no_parameters_is_the_nonce_alone() {
    assert_eq!(canonical_query_string("42", &Payload::new()), "nonce=42");
}

#[test]
fn canonical_string_takes_the_nonce_from_the_argument() {
    let payload = payload_of(&[("pair", "XBTUSD"), ("nonce", "1"), ("type", "buy")]);
    assert_eq!(canonical_query_string("2", &payload), "nonce=2&pair=XBTUSD&type=buy");
}

#[test]
fn canonical_string_percent_encodes_values_only() {
    let payload = payload_of(&[("a", "x y&z=\u{fc}~"), ("k_1", "A-Z.0_9")]);
    assert_eq!(
        canonical_query_string("7", &payload),
        "nonce=7&a=x%20y%26z%3D%C3%BC~&k_1=A-Z.0_9"
    );
}

#[test]
fn canonical_string_encodes_with_upper_case_digits() {
    let payload = payload_of(&[("v", "/+\u{7f}\n")]);
    assert_eq!(canonical_query_string("1", &payload), "nonce=1&v=%2F%2B%7F%0A");
}

#[test]
fn canonical_string_follows_the_order_of_insertion() {
    let first = payload_of(&[("b", "2"), ("a", "1")]);
    let second = payload_of(&[("a", "1"), ("b", "2")]);
    assert_eq!(canonical_query_string("1", &first), "nonce=1&b=2&a=1");
    assert_eq!(canonical_query_string("1", &second), "nonce=1&a=1&b=2");
}

#[test]
fn known_signature_is_reproduced() {
    let signature = sign(SECRET, "/private/AddOrder", "1616492376594", &add_order());
    assert_eq!(signature, Ok(ADD_ORDER_SIGNATURE.to_string()));
}

#[test]
fn signing_twice_gives_the_same_signature() {
    let first = sign(SECRET, "/private/AddOrder", "1616492376594", &add_order());
    let second = sign(SECRET, "/private/AddOrder", "1616492376594", &add_order());
    assert_eq!(first, second);
}

#[test]
fn another_order_of_parameters_gives_another_signature() {
    let swapped = payload_of(&[
        ("nonce", "1616492376594"),
        ("pair", "XBTUSD"),
        ("ordertype", "limit"),
        ("price", "37500"),
        ("type", "buy"),
        ("volume", "1.25"),
    ]);
    let signature = sign(SECRET, "/private/AddOrder", "1616492376594", &swapped);
    assert_eq!(
        signature,
        Ok("IJpVQTy+NEKSOy3l8sbHh2qcWm+S3Mnebd2yS9g/E84/C5h8qy0/cAG249x3kg6882yh19eWtBHWzv0J2+7Ssw=="
            .to_string())
    );
    assert_ne!(signature, Ok(ADD_ORDER_SIGNATURE.to_string()));
}

#[test]
fn signature_of_a_rebuilt_payload_is_the_same() {
    let payload = add_order();
    let mut rebuilt = Payload::new();
    for i in 0..payload.len() {
        rebuilt.insert(payload.key_at(i).clone(), payload.value_at(i).clone());
    }
    assert_eq!(
        sign(SECRET, "/private/AddOrder", "1616492376594", &rebuilt),
        Ok(ADD_ORDER_SIGNATURE.to_string())
    );
}

#[test]
fn signature_depends_on_path_nonce_and_secret() {
    let payload = payload_of(&[("nonce", "1")]);
    let base = sign(SECRET, "/private/OpenOrders", "1", &payload);
    assert_eq!(
        base,
        Ok("BhbW2zcyCgxs+kBqGssu5tfc8w14kLhH3VJMILk6vSQ8eJ9esmVjNuJFBdJodRqQUg7vVBAJDN/M5F/9XwHWpw=="
            .to_string())
    );
    assert_ne!(sign(SECRET, "/private/Balance", "1", &payload), base);
    assert_ne!(sign(SECRET, "/private/OpenOrders", "2", &payload), base);
    assert_ne!(sign("c2Vjb25kIHNlY3JldCBmb3IgdHdvIGZhY3Rvcg==", "/private/OpenOrders", "1", &payload), base);
}

#[test]
fn empty_secret_is_an_empty_key() {
    let payload = payload_of(&[("nonce", "1")]);
    assert_eq!(
        sign("", "/private/OpenOrders", "1", &payload),
        Ok("sm8BG+tRV+JYtSjfLTBtMsHOHYsb8rlMBSs2WgIBK7ojaH402jhnSR3i5hunXgbymwzUMSe//3wel+ftZ79KHQ=="
            .to_string())
    );
}

#[test]
fn secret_that_is_not_base64_is_refused() {
    let signature = sign("not base64!", "/private/AddOrder", "1", &Payload::new());
    assert_eq!(signature, Err(SignError::InvalidSecret));
}

#[test]
fn secret_with_a_bad_length_is_refused() {
    assert_eq!(sign("abcde", "/private/AddOrder", "1", &Payload::new()), Err(SignError::InvalidSecret));
}

#[test]
fn refused_key_gives_the_key_error() {
    assert_eq!(signature_from_tag(Err(InvalidKeyLength)), Err(SignError::InvalidKey));
}

#[test]
fn tag_is_encoded_in_base64() {
    assert_eq!(signature_from_tag(Ok(vec![0u8, 1, 2, 255])), Ok("AAEC/w==".to_string()));
    assert_eq!(signature_from_tag(Ok(Vec::new())), Ok(String::new()));
}
