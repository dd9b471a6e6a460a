use livekit_api::access_token::{AccessTokenError, TokenVerifier};
use score_hub::config::{load_config, Config};
use score_hub::decimal::push_decimal;
use score_hub::token::{
    create_token_handler, room_name, token_response, GrantRequest, Grants, LiveKitMetadata, Role,
    TokenQuery, TokenResponse,
};

fn query(kind: &str, phase: &str) -> TokenQuery {
    TokenQuery { kind: kind.to_string(), phase: phase.to_string() }
}

fn dev_config() -> Config {
    load_config(None, None, None)
}

fn decimal_of(n: u128) -> String {
    let mut text = String::new();
    push_decimal(&mut text, n);
    text
}

#[test]
fn config_defaults() {
    let config = load_config(None, None, None);
    assert_eq!(config.livekit_url, "ws://localhost:7880");
    assert_eq!(config.livekit_api_key, "devkey");
    assert_eq!(config.livekit_api_secret, "secret");
}

#[test]
fn config_takes_what_is_given() {
    let config = load_config(
        Some("wss://media.example".to_string()),
        None,
        Some("s3".to_string()),
    );
    assert_eq!(
        config,
        Config {
            livekit_url: "wss://media.example".to_string(),
            livekit_api_key: "devkey".to_string(),
            livekit_api_secret: "s3".to_string(),
        }
    );
}

#[test]
fn config_keeps_an_empty_setting() {
    let config = load_config(Some(String::new()), Some(String::new()), None);
    assert_eq!(config.livekit_url, "");
    assert_eq!(config.livekit_api_key, "");
    assert_eq!(config.livekit_api_secret, "secret");
}

#[test]
fn decimal_text_of_numbers() {
    assert_eq!(decimal_of(0), "0");
    assert_eq!(decimal_of(7), "7");
    assert_eq!(decimal_of(10), "10");
    assert_eq!(decimal_of(109), "109");
    assert_eq!(decimal_of(1234567890), "1234567890");
    assert_eq!(decimal_of(1_700_000_000_123), "1700000000123");
    assert_eq!(decimal_of(u128::MAX), "340282366920938463463374607431768211455");
}

#[test]
fn decimal_is_appended_to_what_is_there() {
    let mut text = "camera-semi-".to_string();
    push_decimal(&mut text, 42);
    assert_eq!(text, "camera-semi-42");
    push_decimal(&mut text, 0);
    assert_eq!(text, "camera-semi-420");
}

#[test]
fn room_of_each_phase() {
    assert_eq!(room_name(&"semi".to_string()), "basketball-semi");
    assert_eq!(room_name(&"final".to_string()), "basketball-final");
    assert_eq!(room_name(&"quarter".to_string()), "basketball-default");
    assert_eq!(room_name(&String::new()), "basketball-default");
    assert_eq!(room_name(&"Semi".to_string()), "basketball-default");
    assert_eq!(room_name(&"semi ".to_string()), "basketball-default");
}

#[test]
fn role_of_each_kind() {
    assert_eq!(Role::parse(&"camera".to_string()), Role::Camera);
    assert_eq!(Role::parse(&"admin".to_string()), Role::Admin);
    assert_eq!(Role::parse(&"output".to_string()), Role::Output);
    assert_eq!(Role::parse(&"viewer".to_string()), Role::Unrecognized);
    assert_eq!(Role::parse(&String::new()), Role::Unrecognized);
    assert_eq!(Role::parse(&"Camera".to_string()), Role::Unrecognized);
}

#[test]
fn grants_of_each_role() {
    assert_eq!(
        Role::Camera.grants("r".to_string()),
        Grants {
            room: "r".to_string(),
            room_join: true,
            room_admin: false,
            can_publish: Some(true),
            can_subscribe: Some(true),
            can_publish_data: Some(true),
            can_update_own_metadata: Some(true),
        }
    );
    assert_eq!(
        Role::Admin.grants("r".to_string()),
        Grants {
            room: "r".to_string(),
            room_join: true,
            room_admin: true,
            can_publish: Some(false),
            can_subscribe: Some(true),
            can_publish_data: Some(true),
            can_update_own_metadata: None,
        }
    );
    assert_eq!(
        Role::Output.grants("r".to_string()),
        Grants {
            room: "r".to_string(),
            room_join: true,
            room_admin: false,
            can_publish: Some(false),
            can_subscribe: Some(true),
            can_publish_data: Some(true),
            can_update_own_metadata: None,
        }
    );
    assert_eq!(
        Role::Unrecognized.grants("r".to_string()),
        Grants {
            room: "r".to_string(),
            room_join: false,
            room_admin: false,
            can_publish: Some(false),
            can_subscribe: Some(false),
            can_publish_data: None,
            can_update_own_metadata: None,
        }
    );
}

#[test]
fn identity_and_name_of_a_participant() {
    let q = query("camera", "semi");
    assert_eq!(q.display_name(), "camera-semi");
    assert_eq!(q.identity(1_700_000_000_123), "camera-semi-1700000000123");
    assert_eq!(q.identity(0), "camera-semi-0");
    let blank = query("", "");
    assert_eq!(blank.display_name(), "-");
    assert_eq!(blank.identity(5), "--5");
}

#[test]
fn grant_request_of_a_query() {
    assert_eq!(
        query("admin", "final").grant_request(17),
        GrantRequest {
            identity: "admin-final-17".to_string(),
            name: "admin-final".to_string(),
            grants: Role::Admin.grants("basketball-final".to_string()),
        }
    );
    assert_eq!(
        query("nobody", "nowhere").grant_request(0),
        GrantRequest {
            identity: "nobody-nowhere-0".to_string(),
            name: "nobody-nowhere".to_string(),
            grants: Role::Unrecognized.grants("basketball-default".to_string()),
        }
    );
}

#[test]
fn response_after_signing() {
    assert_eq!(
        token_response("basketball-semi".to_string(), Ok("abc.def.ghi".to_string())),
        TokenResponse { token: "abc.def.ghi".to_string(), room: "basketball-semi".to_string() }
    );
    assert_eq!(
        token_response("basketball-final".to_string(), Err(AccessTokenError::InvalidKeys)),
        TokenResponse { token: String::new(), room: "basketball-final".to_string() }
    );
    assert_eq!(
        token_response("r".to_string(), Err(AccessTokenError::InvalidClaims("no identity"))),
        TokenResponse { token: String::new(), room: "r".to_string() }
    );
}

#[test]
fn camera_token_carries_its_grants() {
    let config = dev_config();
    let response = create_token_handler(&query("camera", "semi"), &config, 1_700_000_000_123);
    assert_eq!(response.room, "basketball-semi");
    assert_eq!(response.token.split('.').count(), 3);
    let claims = TokenVerifier::with_api_key("devkey", "secret").verify(&response.token).unwrap();
    assert_eq!(claims.iss, "devkey");
    assert_eq!(claims.sub, "camera-semi-1700000000123");
    assert_eq!(claims.name, "camera-semi");
    assert_eq!(claims.video.room, "basketball-semi");
    assert!(claims.video.room_join);
    assert!(!claims.video.room_admin);
    assert_eq!(claims.video.can_publish, Some(true));
    assert_eq!(claims.video.can_subscribe, Some(true));
    assert_eq!(claims.video.can_publish_data, Some(true));
    assert_eq!(claims.video.can_update_own_metadata, Some(true));
}

#[test]
fn admin_token_carries_its_grants() {
    let config = dev_config();
    let response = create_token_handler(&query("admin", "final"), &config, 99);
    assert_eq!(response.room, "basketball-final");
    let claims = TokenVerifier::with_api_key("devkey", "secret").verify(&response.token).unwrap();
    assert_eq!(claims.sub, "admin-final-99");
    assert_eq!(claims.name, "admin-final");
    assert_eq!(claims.video.room, "basketball-final");
    assert!(claims.video.room_join);
    assert!(claims.video.room_admin);
    assert_eq!(claims.video.can_publish, Some(false));
    assert_eq!(claims.video.can_subscribe, Some(true));
    assert_eq!(claims.video.can_publish_data, Some(true));
    assert!(!claims.video.can_update_own_metadata());
}

#[test]
fn output_token_carries_its_grants() {
    let config = dev_config();
    let response = create_token_handler(&query("output", "warmup"), &config, 1);
    assert_eq!(response.room, "basketball-default");
    let claims = TokenVerifier::with_api_key("devkey", "secret").verify(&response.token).unwrap();
    assert_eq!(claims.sub, "output-warmup-1");
    assert_eq!(claims.video.room, "basketball-default");
    assert!(claims.video.room_join);
    assert!(!claims.video.room_admin);
    assert_eq!(claims.video.can_publish, Some(false));
    assert_eq!(claims.video.can_subscribe, Some(true));
    assert_eq!(claims.video.can_publish_data, Some(true));
}

#[test]
fn unrecognized_kind_gets_a_token_without_access() {
    let config = dev_config();
    let response = create_token_handler(&query("guest", "semi"), &config, 1);
    assert_eq!(response.room, "basketball-semi");
    let claims = TokenVerifier::with_api_key("devkey", "secret").verify(&response.token).unwrap();
    assert_eq!(claims.sub, "guest-semi-1");
    assert!(!claims.video.room_join);
    assert!(!claims.video.room_admin);
    assert!(!claims.video.can_publish());
    assert!(!claims.video.can_subscribe());
    assert!(!claims.video.can_publish_data());
}

#[test]
fn token_is_signed_with_the_configured_secret() {
    let config = load_config(None, Some("key1".to_string()), Some("topsecret".to_string()));
    let response = create_token_handler(&query("camera", "semi"), &config, 1);
    assert!(TokenVerifier::with_api_key("key1", "topsecret").verify(&response.token).is_ok());
    assert!(TokenVerifier::with_api_key("key1", "secret").verify(&response.token).is_err());
    assert!(TokenVerifier::with_api_key("devkey", "topsecret").verify(&response.token).is_err());
}

#[test]
fn empty_credentials_give_an_empty_token() {
    let no_key = load_config(None, Some(String::new()), None);
    let response = create_token_handler(&query("camera", "semi"), &no_key, 1);
    assert_eq!(
        response,
        TokenResponse { token: String::new(), room: "basketball-semi".to_string() }
    );
    let no_secret = load_config(None, None, Some(String::new()));
    let response = create_token_handler(&query("admin", "final"), &no_secret, 1);
    assert_eq!(
        response,
        TokenResponse { token: String::new(), room: "basketball-final".to_string() }
    );
}

#[test]
fn metadata_is_a_plain_record() {
    let metadata = LiveKitMetadata {
        phase: "semi".to_string(),
        game: Some("game1".to_string()),
        angle: None,
    };
    assert_eq!(metadata.clone(), metadata);
    assert_eq!(metadata.game.as_deref(), Some("game1"));
}
