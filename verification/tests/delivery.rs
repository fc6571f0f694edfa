use eden_client::auth::get_token;
use eden_client::client::Client;
use eden_client::error::EdenServerError;
use eden_client::mapper::map_reading;
use eden_client::message::{ScalarValue, SensorReading};

#[test]
fn mapper_decomposes_a_reading_into_two_measurements() {
    let reading = SensorReading::TemperaturePressure {
        sensor: "living room".to_string(),
        t: ScalarValue { bits: (21.5f64).to_bits() },
        p: ScalarValue { bits: (101.2f64).to_bits() },
        ts: 1_234_567_890_123,
    };
    let message = map_reading(reading);
    assert_eq!(message.meta.name, "living room");
    assert_eq!(message.timestamp, 1_234_567_890_123);
    assert_eq!(message.data.len(), 2);
    assert_eq!(message.data[0].sensor, "temperature");
    assert_eq!(f64::from_bits(message.data[0].value.bits), 21.5);
    assert_eq!(message.data[0].unit, "celsius");
    assert_eq!(message.data[1].sensor, "barometer");
    assert_eq!(f64::from_bits(message.data[1].value.bits), 101.2);
    assert_eq!(message.data[1].unit, "kilopascal");
}

#[test]
fn issued_token_carries_the_claims_and_signature() {
    let token = get_token("eden-device".to_string(), "sensor".to_string(), "s3cr3t".to_string())
        .expect("signing with an HMAC secret succeeds");
    let mut validation = jsonwebtoken::Validation::new(jsonwebtoken::Algorithm::HS256);
    validation.required_spec_claims = std::collections::HashSet::new();
    validation.validate_exp = false;
    let decoded = jsonwebtoken::decode::<serde_json::Value>(
        &token,
        &jsonwebtoken::DecodingKey::from_secret(b"s3cr3t"),
        &validation,
    )
    .expect("the token must verify against the same secret");
    assert_eq!(decoded.claims["iss"], "eden-device");
    assert_eq!(decoded.claims["role"], "sensor");
    // A different secret must not verify: the token is really signed.
    let rejected = jsonwebtoken::decode::<serde_json::Value>(
        &token,
        &jsonwebtoken::DecodingKey::from_secret(b"other"),
        &validation,
    );
    assert!(rejected.is_err());
}

#[test]
fn token_issuance_is_deterministic() {
    let a = get_token("dev".to_string(), "role".to_string(), "k".to_string()).unwrap();
    let b = get_token("dev".to_string(), "role".to_string(), "k".to_string()).unwrap();
    assert_eq!(a, b);
}

#[test]
fn client_accepts_a_valid_endpoint() {
    let client = Client::new("http://collector.example:8080/data", 4, "tok".to_string())
        .expect("a valid URL and pool size must be accepted");
    assert_eq!(client.endpoint(), "http://collector.example:8080/data");
    assert_eq!(client.auth_header_value(), "Bearer tok");
    assert_eq!(client.pool_capacity(), 4);
    assert_eq!(client.sends_in_flight(), 0);
}

#[test]
fn client_rejects_a_malformed_endpoint() {
    assert!(Client::new("not a url", 4, "tok".to_string()).is_err());
}

#[test]
fn client_rejects_a_zero_pool_size() {
    assert!(Client::new("http://collector.example/data", 0, "tok".to_string()).is_err());
}

#[test]
fn client_slot_accounting_bounds_in_flight_sends() {
    let mut client = Client::new("http://collector.example/data", 2, "tok".to_string()).unwrap();
    assert!(client.try_acquire_slot());
    assert!(client.try_acquire_slot());
    assert!(!client.try_acquire_slot());
    // A failed delivery frees its slot just like a successful one.
    client.complete_send(false);
    assert!(client.try_acquire_slot());
}

#[test]
fn error_reports_its_description() {
    let err = EdenServerError::new("boom".to_string());
    assert_eq!(err.description(), "boom");
}
