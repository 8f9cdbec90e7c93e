use login_gateway::backend::{AuthError, LoginResult};
use login_gateway::config::ServerConfig;
use login_gateway::grpc::pb;
use login_gateway::grpc::{login_reply, to_pb_char, to_pb_roster, to_pb_world, Code, Status};
use login_gateway::http::{
    health, login_response, rate_limited, STATUS_OK, STATUS_TOO_MANY_REQUESTS,
    STATUS_UNAUTHORIZED,
};
use login_gateway::models::{Character, LoginHttpRequest, LoginHttpResponse, World};
use login_gateway::rate_limit::RateLimited;
use login_gateway::state::AppState;

fn state() -> AppState {
    AppState::new(ServerConfig {
        http_addr: "127.0.0.1:1".to_string(),
        grpc_addr: "127.0.0.1:2".to_string(),
        server_ip: "203.0.113.9".to_string(),
        server_port: 7171,
        server_name: "Rust World".to_string(),
        server_location: "BR".to_string(),
        rate_burst: 1,
        rate_per_sec: 1,
        use_mock: true,
        mysql_url: None,
        redis_url: None,
    })
}

fn static_world() -> World {
    World {
        name: "Rust World".to_string(),
        ip: "203.0.113.9".to_string(),
        port: 7171,
        location: "BR".to_string(),
    }
}

fn character(name: &str, level: i32, vocation: &str) -> Character {
    Character { name: name.to_string(), level, vocation: vocation.to_string() }
}

fn result() -> LoginResult {
    LoginResult {
        characters: vec![character("A", 1, "Knight"), character("B", 2, "Druid")],
        world: World {
            name: "Cached World".to_string(),
            ip: "198.51.100.1".to_string(),
            port: 65535,
            location: "EU".to_string(),
        },
    }
}

#[test]
fn health_is_ok() {
    assert_eq!(health(), "ok");
}

#[test]
fn status_codes() {
    assert_eq!(STATUS_OK, 200);
    assert_eq!(STATUS_UNAUTHORIZED, 401);
    assert_eq!(STATUS_TOO_MANY_REQUESTS, 429);
    assert_eq!(rate_limited(RateLimited), 429);
}

#[test]
fn http_success_envelope() {
    let (status, body) = login_response(&state(), Ok(result()));
    assert_eq!(status, 200);
    assert_eq!(
        body,
        LoginHttpResponse {
            ok: true,
            message: String::new(),
            characters: result().characters,
            world: result().world,
        }
    );
}

#[test]
fn http_failure_envelope_carries_the_text_and_the_static_world() {
    let cases = [
        (AuthError::InvalidCredentials, "invalid credentials"),
        (AuthError::AccountNotFound, "account not found"),
        (AuthError::BackendUnavailable, "backend unavailable"),
        (AuthError::NoBackendConfigured, "no backend configured"),
    ];
    for (error, text) in cases {
        let (status, body) = login_response(&state(), Err(error));
        assert_eq!(status, 401);
        assert_eq!(
            body,
            LoginHttpResponse {
                ok: false,
                message: text.to_string(),
                characters: vec![],
                world: static_world(),
            }
        );
    }
}

#[test]
fn http_envelopes_clone_equal() {
    let (_, body) = login_response(&state(), Ok(result()));
    assert_eq!(body.clone(), body);
    let request = LoginHttpRequest { account: "a".to_string(), password: "b".to_string() };
    assert_eq!(request.clone(), request);
    assert_eq!(static_world().clone(), static_world());
    assert_eq!(character("x", -3, "y").clone(), character("x", -3, "y"));
}

#[test]
fn character_goes_to_the_wire_unchanged() {
    assert_eq!(
        to_pb_char(character("Zed", 42, "Paladin")),
        pb::Character { name: "Zed".to_string(), level: 42, vocation: "Paladin".to_string() }
    );
    assert_eq!(to_pb_char(character("", i32::MIN, "")).level, i32::MIN);
}

#[test]
fn world_goes_to_the_wire_with_a_wider_port() {
    assert_eq!(
        to_pb_world(result().world),
        pb::World {
            name: "Cached World".to_string(),
            ip: "198.51.100.1".to_string(),
            port: 65535u32,
            location: "EU".to_string(),
        }
    );
    assert_eq!(to_pb_world(static_world()).port, 7171u32);
}

#[test]
fn roster_goes_to_the_wire_in_order() {
    let wire = to_pb_roster(result().characters);
    let names: Vec<&str> = wire.iter().map(|c| c.name.as_str()).collect();
    assert_eq!(names, vec!["A", "B"]);
    assert_eq!(wire[1].level, 2);
    assert_eq!(wire[1].vocation, "Druid");
    assert!(to_pb_roster(Vec::new()).is_empty());
}

#[test]
fn rpc_success_reply_echoes_the_ip() {
    let reply = login_reply(&"192.0.2.7".to_string(), Ok(result())).unwrap();
    assert_eq!(
        reply,
        pb::LoginReply {
            ok: true,
            message: "ok (ip=192.0.2.7)".to_string(),
            characters: vec![
                pb::Character { name: "A".to_string(), level: 1, vocation: "Knight".to_string() },
                pb::Character { name: "B".to_string(), level: 2, vocation: "Druid".to_string() },
            ],
            world: Some(to_pb_world(result().world)),
        }
    );
    let empty = login_reply(&String::new(), Ok(result())).unwrap();
    assert_eq!(empty.message, "ok (ip=)");
}

#[test]
fn rpc_failure_is_unauthenticated_with_the_text() {
    assert_eq!(
        login_reply(&"192.0.2.7".to_string(), Err(AuthError::InvalidCredentials)),
        Err(Status { code: Code::Unauthenticated, message: "invalid credentials".to_string() })
    );
    assert_eq!(
        login_reply(&"x".to_string(), Err(AuthError::BackendUnavailable)),
        Err(Status { code: Code::Unauthenticated, message: "backend unavailable".to_string() })
    );
}

#[test]
fn rpc_rate_limit_status() {
    assert_eq!(
        login_gateway::grpc::rate_limited(RateLimited),
        Status { code: Code::ResourceExhausted, message: "too many requests".to_string() }
    );
}

#[test]
fn login_request_holds_what_the_client_sent() {
    let request = pb::LoginRequest {
        account: "bob".to_string(),
        password: "bob".to_string(),
        ip: "10.0.0.1".to_string(),
    };
    let (_, action) = state().login(request.account, request.password);
    let reply = match action {
        login_gateway::state::LoginAction::Finish { outcome, .. } => {
            login_reply(&request.ip, outcome)
        }
        other => panic!("unexpected action {:?}", other),
    };
    let reply = reply.unwrap();
    assert_eq!(reply.message, "ok (ip=10.0.0.1)");
    assert_eq!(reply.characters.len(), 3);
    assert_eq!(reply.characters[2].name, "bob-Sorcerer");
    assert_eq!(reply.world.unwrap().port, 7171);
}
