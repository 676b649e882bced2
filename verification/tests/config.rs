use interoperability_tests_sv2::app_type::AppType;
use interoperability_tests_sv2::config::{Config, Site};
use interoperability_tests_sv2::endpoint::{IpAddress, SocketAddress};

/// Reads an IPv4 socket address such as "51.161.49.55:34255".
fn library_addr(text: &str) -> SocketAddress {
    let (ip, port) = text.split_once(':').expect("host:port");
    let octets: Vec<u8> = ip.split('.').map(|o| o.parse().expect("octet")).collect();
    assert_eq!(octets.len(), 4, "four octets");
    SocketAddress { ip: IpAddress::V4([octets[0], octets[1], octets[2], octets[3]]), port: port.parse().expect("port") }
}

/// Reads the sites of a TOML batch file into a `Config`, field by field.
fn config_from_toml(raw: &str) -> Config {
    let value: toml::Value = toml::from_str(raw).expect("valid toml");
    let sites = value
        .get("site")
        .and_then(|s| s.as_array())
        .cloned()
        .unwrap_or_default();
    let site = sites
        .iter()
        .map(|s| Site {
            name: s.get("name").and_then(|v| v.as_str()).expect("site name").to_string(),
            pool_address: s.get("pool_address").and_then(|v| v.as_str()).map(library_addr),
            jds_address: s.get("jds_address").and_then(|v| v.as_str()).map(library_addr),
            user_identity: s.get("user_identity").and_then(|v| v.as_str()).map(|v| v.to_string()),
        })
        .collect();
    Config { site }
}

#[test]
fn parses_sites_into_endpoints() {
    let raw = r#"
[[site]]
name = "SRI Pool"
pool_address = "51.161.49.55:34255"
jds_address = "51.161.49.55:34256"

[[site]]
name = "Empty Site"
"#;
    let config: Config = config_from_toml(raw);
    let targets = config.targets();
    assert_eq!(targets.len(), 2);
    assert_eq!(targets[0].endpoint.app_type, AppType::SoloPool);
    assert_eq!(targets[1].endpoint.app_type, AppType::JobDeclaratorServer);
}

#[test]
fn targets_carry_site_name_address_and_identity() {
    let config = Config {
        site: vec![
            Site {
                name: "Alpha".to_string(),
                pool_address: None,
                jds_address: Some(library_addr("10.0.0.1:3000")),
                user_identity: Some("alice".to_string()),
            },
            Site {
                name: "Beta".to_string(),
                pool_address: Some(SocketAddress {
                    ip: IpAddress::V6 { segments: [0, 0, 0, 0, 0, 0, 0, 1], flowinfo: 0, scope_id: 0 },
                    port: 34255,
                }),
                jds_address: None,
                user_identity: None,
            },
        ],
    };
    let targets = config.targets();
    assert_eq!(targets.len(), 2);
    assert_eq!(targets[0].site_name, "Alpha");
    assert_eq!(targets[0].endpoint.app_type, AppType::JobDeclaratorServer);
    assert_eq!(targets[0].endpoint.user_identity, "alice");
    assert_eq!(targets[0].endpoint.addr.port, 3000);
    assert!(matches!(targets[0].endpoint.addr.ip, IpAddress::V4([10, 0, 0, 1])));
    assert_eq!(targets[1].site_name, "Beta");
    assert_eq!(targets[1].endpoint.app_type, AppType::SoloPool);
    assert_eq!(targets[1].endpoint.user_identity, "interoperability_tests_sv2");
    assert_eq!(targets[1].endpoint.addr.port, 34255);
}

#[test]
fn no_sites_no_targets() {
    let config = Config { site: vec![] };
    assert!(config.targets().is_empty());
    let config = config_from_toml("[[site]]\nname = \"Nothing configured\"\n");
    assert!(config.targets().is_empty());
}

#[test]
fn pool_target_precedes_jds_target_of_the_same_site() {
    let config = config_from_toml(
        "[[site]]\nname = \"A\"\njds_address = \"1.2.3.4:2\"\npool_address = \"1.2.3.4:1\"\nuser_identity = \"me\"\n",
    );
    let targets = config.targets();
    assert_eq!(targets.len(), 2);
    assert_eq!(targets[0].endpoint.app_type, AppType::SoloPool);
    assert_eq!(targets[0].endpoint.addr.port, 1);
    assert_eq!(targets[1].endpoint.app_type, AppType::JobDeclaratorServer);
    assert_eq!(targets[1].endpoint.addr.port, 2);
    assert_eq!(targets[1].endpoint.user_identity, "me");
}
