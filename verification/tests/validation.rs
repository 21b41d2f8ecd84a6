use objects::exchanges::BaseExchange;
use objects::payload::Payload;
use objects::signing::{sign, SignError};
use objects::system_server::ServerTime;
use objects::validation::{ServerTimeResponse, Validate2FA};

const SECRET: &str =
    "kQH5HW/8p1uGOVjbgWA7FunAmGO8lsSUXNsu3eow76sz84Q18fWxnyRzBHCd3pd5nE9qa99HAZtuZuj6F1huXg==";

fn check() -> Validate2FA {
    Validate2FA {
        private_key: SECRET.to_string(),
        nonce: "1616492376594".to_string(),
        endpoint: "/0/private/AddOrder".to_string(),
    }
}

fn times(server: i64, local: i64) -> ServerTimeResponse {
    ServerTimeResponse {
        server_time: ServerTime { unixtime: server, rfc1123: String::new() },
        current_ts: local,
    }
}

#[test]
fn the_expected_signature_matches() {
    let matched = check().sign(
        "k/v54OoVY9DkRNSwbXDDTM5fbu5fSCPBex2LaOpQYZLXSoeyxFsOTMN3U8ugEdxbpXsraiHZjuvaWHQmRo60fA=="
            .to_string(),
    );
    assert_eq!(matched, Ok(true));
}

#[test]
fn another_signature_does_not_match() {
    let matched = check().sign(
        "4/dpxb3iT4tp/ZCVEwSnEsLxx0bqyhLpdfOpc6fn7OR8+UClSV5n9E6aSS8MPtnRfp32bAb0nmbRn6H8ndwLUQ=="
            .to_string(),
    );
    assert_eq!(matched, Ok(false));
    assert_eq!(check().sign(String::new()), Ok(false));
}

#[test]
fn the_check_depends_on_nonce_and_path() {
    let expected =
        "k/v54OoVY9DkRNSwbXDDTM5fbu5fSCPBex2LaOpQYZLXSoeyxFsOTMN3U8ugEdxbpXsraiHZjuvaWHQmRo60fA=="
            .to_string();
    let mut other_nonce = check();
    other_nonce.nonce = "1616492376595".to_string();
    assert_eq!(other_nonce.sign(expected.clone()), Ok(false));
    let mut other_path = check();
    other_path.endpoint = "/private/AddOrder".to_string();
    assert_eq!(other_path.sign(expected), Ok(false));
}

#[test]
fn the_check_accepts_what_the_signer_gives() {
    let signed = sign(SECRET, "/private/AddOrder", "1616492376594", &Payload::new()).expect("a signature");
    assert_eq!(check().sign(signed), Ok(true));

    let mut with_nonce = Payload::new();
    with_nonce.insert("nonce".to_string(), "1".to_string());
    let built = BaseExchange::default()
        .build_signature(SECRET.to_string(), "/private/OpenOrders".to_string(), "1".to_string(), with_nonce)
        .expect("a signature");
    let open_orders = Validate2FA {
        private_key: SECRET.to_string(),
        nonce: "1".to_string(),
        endpoint: "/0/private/OpenOrders".to_string(),
    };
    assert_eq!(
        built,
        "BhbW2zcyCgxs+kBqGssu5tfc8w14kLhH3VJMILk6vSQ8eJ9esmVjNuJFBdJodRqQUg7vVBAJDN/M5F/9XwHWpw=="
    );
    assert_eq!(open_orders.sign(built), Ok(true));
}

#[test]
fn the_check_refuses_a_signature_over_further_parameters() {
    let mut payload = Payload::new();
    payload.insert("pair".to_string(), "XBTUSD".to_string());
    let signed = sign(SECRET, "/private/AddOrder", "1616492376594", &payload).expect("a signature");
    assert_eq!(check().sign(signed), Ok(false));
}

#[test]
fn a_key_that_is_not_base64_is_refused() {
    let mut bad = check();
    bad.private_key = "not base64".to_string();
    assert_eq!(bad.sign("x".to_string()), Err(SignError::InvalidSecret));
}

#[test]
fn times_in_one_minute_match() {
    assert!(times(1616492340, 1616492399).same_minute());
    assert!(times(120, 179).same_minute());
    assert!(times(0, 59).same_minute());
}

#[test]
fn times_in_neighbouring_minutes_do_not_match() {
    assert!(!times(1616492399, 1616492400).same_minute());
    assert!(!times(59, 60).same_minute());
}

#[test]
fn minutes_before_the_epoch_round_towards_it() {
    assert!(times(-59, 59).same_minute());
    assert!(!times(-60, 0).same_minute());
    assert!(times(-119, -60).same_minute());
    assert!(times(i64::MIN, i64::MIN + 7).same_minute());
}
