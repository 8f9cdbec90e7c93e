use login_gateway::config::{
    mock_enabled, parse_port, Environment, ServerConfig, DEFAULT_SERVER_PORT,
};
use login_gateway::models::World;

fn unset() -> Environment {
    Environment {
        login_http_addr: None,
        login_grpc_addr: None,
        server_ip: None,
        server_port: None,
        server_name: None,
        server_location: None,
        rate_limiter_burst: None,
        rate_limiter_rate: None,
        use_mock: None,
        mysql_url: None,
        redis_url: None,
    }
}

fn some(text: &str) -> Option<String> {
    Some(text.to_string())
}

#[test]
fn empty_environment_gives_the_defaults() {
    let cfg = ServerConfig::from_env(unset());
    assert_eq!(
        cfg,
        ServerConfig {
            http_addr: "0.0.0.0:8080".to_string(),
            grpc_addr: "0.0.0.0:50051".to_string(),
            server_ip: "127.0.0.1".to_string(),
            server_port: 7171,
            server_name: "Rust World".to_string(),
            server_location: "BR".to_string(),
            rate_burst: 50_000,
            rate_per_sec: 25_000,
            use_mock: true,
            mysql_url: None,
            redis_url: None,
        }
    );
    assert_eq!(DEFAULT_SERVER_PORT, 7171);
}

#[test]
fn environment_overrides_every_default() {
    let cfg = ServerConfig::from_env(Environment {
        login_http_addr: some("127.0.0.1:80"),
        login_grpc_addr: some("[::1]:81"),
        server_ip: some("198.51.100.7"),
        server_port: some("7272"),
        server_name: some("Other"),
        server_location: some(""),
        rate_limiter_burst: Some(1_500),
        rate_limiter_rate: Some(0),
        use_mock: some("0"),
        mysql_url: some("mysql://u:p@db/game"),
        redis_url: some("redis://cache/0"),
    });
    assert_eq!(
        cfg,
        ServerConfig {
            http_addr: "127.0.0.1:80".to_string(),
            grpc_addr: "[::1]:81".to_string(),
            server_ip: "198.51.100.7".to_string(),
            server_port: 7272,
            server_name: "Other".to_string(),
            server_location: String::new(),
            rate_burst: 1_500,
            rate_per_sec: 0,
            use_mock: false,
            mysql_url: some("mysql://u:p@db/game"),
            redis_url: some("redis://cache/0"),
        }
    );
}

#[test]
fn world_is_built_from_the_configuration() {
    let mut env = unset();
    env.server_port = some("+1");
    env.server_name = some("N");
    let cfg = ServerConfig::from_env(env);
    assert_eq!(
        cfg.world(),
        World {
            name: "N".to_string(),
            ip: "127.0.0.1".to_string(),
            port: 1,
            location: "BR".to_string(),
        }
    );
    assert_eq!(cfg.clone(), cfg);
}

#[test]
fn port_texts_that_write_a_port() {
    assert_eq!(parse_port("7171"), Some(7171));
    assert_eq!(parse_port("0"), Some(0));
    assert_eq!(parse_port("+80"), Some(80));
    assert_eq!(parse_port("00080"), Some(80));
    assert_eq!(parse_port("65535"), Some(65535));
    assert_eq!(parse_port("+0000065535"), Some(65535));
}

#[test]
fn port_texts_that_write_none() {
    let texts = [
        "", "+", "-", "-1", "-0", "++1", "+-1", "65536", "99999", "4294967296",
        "18446744073709551616", " 80", "80 ", "8 0", "8_0", "80a", "a80", "0x50", "8.0", "８０",
        "٣",
    ];
    for text in texts {
        assert_eq!(parse_port(text), None, "{:?}", text);
    }
}

#[test]
fn port_parser_agrees_with_the_standard_parser() {
    let texts = [
        "0", "1", "9", "10", "+7", "+", "", "65535", "65536", "065535", "0065536", "655350",
        "-5", "12ab", "é", "1é", "+é1", "6553５",
    ];
    for text in texts {
        assert_eq!(parse_port(text), text.parse::<u16>().ok(), "{:?}", text);
    }
    for n in [0u32, 5, 99, 100, 9999, 65534, 65535, 65536, 70000, 100000] {
        let text = format!("{}", n);
        assert_eq!(parse_port(&text), text.parse::<u16>().ok());
    }
}

#[test]
fn unreadable_port_leaves_the_default() {
    for text in ["", "http", "70000", "-7171", "71 71"] {
        let mut env = unset();
        env.server_port = some(text);
        assert_eq!(ServerConfig::from_env(env).server_port, 7171);
    }
}

#[test]
fn mock_flag_values() {
    let cases = [
        ("1", true),
        ("true", true),
        ("TRUE", true),
        ("True", true),
        ("tRuE", true),
        ("0", false),
        ("false", false),
        ("", false),
        ("yes", false),
        ("on", false),
        (" true", false),
        ("true ", false),
        ("11", false),
        ("01", false),
    ];
    for (text, expected) in cases {
        let mut env = unset();
        env.use_mock = some(text);
        assert_eq!(ServerConfig::from_env(env).use_mock, expected, "{:?}", text);
    }
}

#[test]
fn mock_enabled_reads_both_forms() {
    let t = |a: &str, b: &str| mock_enabled(&a.to_string(), &b.to_string());
    assert!(t("1", "1"));
    assert!(t("TRUE", "true"));
    assert!(t("1", "anything"));
    assert!(t("anything", "true"));
    assert!(!t("true ", "true "));
    assert!(!t("TRUE", "TRUE"));
    assert!(!t("0", "0"));
    assert!(!t("", ""));
}
