use aethokit::Aethokit;
use aethokit::AethokitConfig;
use aethokit::AethokitError;
use aethokit::HttpMethod;
use aethokit::decode_gas_address_response;
use aethokit::decode_sponsor_tx_response;

fn client_with(gas_key: &str, hint: Option<&str>) -> Aethokit {
    let cfg = AethokitConfig {
        gas_key: gas_key.to_string(),
        rpc_or_network: hint.map(|h| h.to_string()),
    };
    Aethokit::new(cfg).unwrap()
}

/// Verify that initializing the SDK with an empty string results in a MissingGasKey error.
#[test]
fn rejects_empty_key() {
    let cfg = AethokitConfig {
        gas_key: "".to_string(),
        rpc_or_network: None,
    };
    let err = Aethokit::new(cfg).unwrap_err();
    match err {
        AethokitError::MissingGasKey => {}
        other => panic!("expected MissingGasKey, got {other:?}"),
    }
}

#[test]
fn rejects_whitespace_only_key() {
    let cfg = AethokitConfig {
        gas_key: " \t\r\n \u{00A0}".to_string(),
        rpc_or_network: Some("devnet".to_string()),
    };
    let err = Aethokit::new(cfg).unwrap_err();
    assert!(matches!(err, AethokitError::MissingGasKey));
}

#[test]
fn accepts_nonempty_key() {
    let cfg = AethokitConfig {
        gas_key: "my-gas-key".to_string(),
        rpc_or_network: None,
    };
    assert!(Aethokit::new(cfg).is_ok());
}

#[test]
fn gas_address_200_decodes() {
    let r = decode_gas_address_response(200, "{\"gasAddress\":\"ABC123\"}".to_string());
    assert_eq!(r.unwrap(), "ABC123");
}

#[test]
fn gas_address_500_is_unexpected_status() {
    let err = decode_gas_address_response(500, "server error".to_string()).unwrap_err();
    match err {
        AethokitError::UnexpectedStatus { status, body } => {
            assert_eq!(status, 500);
            assert_eq!(body, "server error");
        }
        other => panic!("expected UnexpectedStatus, got {other:?}"),
    }
}

#[test]
fn missing_hash_field_is_decode_error() {
    let err = decode_sponsor_tx_response(200, "{\"gasAddress\":\"x\"}".to_string()).unwrap_err();
    match err {
        AethokitError::Serde(body) => assert_eq!(body, "{\"gasAddress\":\"x\"}"),
        other => panic!("expected Serde, got {other:?}"),
    }
}

#[test]
fn null_hash_field_is_decode_error() {
    let err = decode_sponsor_tx_response(200, "{\"hash\":null}".to_string()).unwrap_err();
    assert!(matches!(err, AethokitError::Serde(_)));
}

#[test]
fn malformed_json_is_decode_error() {
    let err = decode_gas_address_response(200, "not json at all".to_string()).unwrap_err();
    assert!(matches!(err, AethokitError::Serde(_)));
}

#[test]
fn non_object_json_body_is_decode_error() {
    let err = decode_gas_address_response(200, "\"server error\"".to_string()).unwrap_err();
    assert!(matches!(err, AethokitError::Serde(_)));
}

#[test]
fn status_299_still_counts_as_success() {
    let r = decode_sponsor_tx_response(299, "{\"hash\":\"deadbeef\"}".to_string());
    assert_eq!(r.unwrap(), "deadbeef");
}

#[test]
fn status_301_is_unexpected_status() {
    let err = decode_gas_address_response(301, "moved".to_string()).unwrap_err();
    match err {
        AethokitError::UnexpectedStatus { status, body } => {
            assert_eq!(status, 301);
            assert_eq!(body, "moved");
        }
        other => panic!("expected UnexpectedStatus, got {other:?}"),
    }
}

#[test]
fn status_199_is_unexpected_status() {
    let err = decode_gas_address_response(199, "{\"gasAddress\":\"x\"}".to_string()).unwrap_err();
    assert!(matches!(err, AethokitError::UnexpectedStatus { status: 199, .. }));
}

#[test]
fn gas_address_plan_is_get_without_body() {
    let c = client_with("secret", None);
    let plan = c.get_gas_address_plan();
    assert_eq!(plan.method, HttpMethod::Get);
    assert_eq!(plan.url, "https://aethokit.onrender.com/api/get-gas-address");
    assert!(plan.body.is_none());
}

#[test]
fn sponsor_tx_plan_is_post_with_body() {
    let c = client_with("secret", None);
    let plan = c.sponsor_tx_plan("TXDATA".to_string());
    assert_eq!(plan.method, HttpMethod::Post);
    assert_eq!(plan.url, "https://aethokit.onrender.com/api/sponsor-tx");
    assert!(plan.body.is_some());
}

#[test]
fn sponsor_tx_body_without_hint() {
    let c = client_with("secret", None);
    let plan = c.sponsor_tx_plan("TXDATA".to_string());
    assert_eq!(plan.body.unwrap(), "{\"transaction\":\"TXDATA\"}");
}

#[test]
fn sponsor_tx_body_with_hint() {
    let c = client_with("secret", Some("devnet"));
    let plan = c.sponsor_tx_plan("TXDATA".to_string());
    assert_eq!(
        plan.body.unwrap(),
        "{\"transaction\":\"TXDATA\",\"rpcOrNetwork\":\"devnet\"}"
    );
}

#[test]
fn every_plan_carries_the_gas_key_header() {
    let c = client_with("the-configured-credential", Some("devnet"));
    let get_plan = c.get_gas_address_plan();
    let post_plan = c.sponsor_tx_plan("TXDATA".to_string());
    assert_eq!(get_plan.header_x_gas_key, "the-configured-credential");
    assert_eq!(post_plan.header_x_gas_key, "the-configured-credential");
}

#[test]
fn every_plan_carries_the_accept_header() {
    let c = client_with("secret", None);
    let get_plan = c.get_gas_address_plan();
    let post_plan = c.sponsor_tx_plan("TXDATA".to_string());
    assert_eq!(get_plan.header_accept, "application/json");
    assert_eq!(post_plan.header_accept, "application/json");
}

#[test]
fn errors_describe_themselves() {
    assert_eq!(
        AethokitError::MissingGasKey.describe(),
        "GAS KEY is required to initialize the SDK"
    );
    assert_eq!(AethokitError::Http("x".to_string()).describe(), "http error");
    assert_eq!(
        AethokitError::UnexpectedStatus {
            status: 500,
            body: "b".to_string()
        }
        .describe(),
        "unexpected response status"
    );
    assert_eq!(
        AethokitError::Serde("b".to_string()).describe(),
        "serialization error"
    );
}
