use browser_node::chain::ChainDescriptor;
use browser_node::config::{build_configuration, NodeSettings, Role};
use browser_node::error::ConfigError;
use browser_node::report::startup_report;

fn settings(role: Role) -> NodeSettings {
    NodeSettings {
        node_name: "test (Browser)".to_string(),
        version: "2.0.0-abcdef".to_string(),
        role,
    }
}

#[test]
fn a_descriptor_keeps_its_name() {
    assert_eq!(ChainDescriptor::new("Flaming Fir".to_string()).name(), "Flaming Fir");
    assert_eq!(ChainDescriptor::new(String::new()).name(), "");
}

#[test]
fn light_settings_give_a_configuration() {
    let chain = ChainDescriptor::new("test".to_string());
    let config = build_configuration(chain, Ok(settings(Role::Light))).unwrap();
    assert_eq!(config.chain().name(), "test");
    assert_eq!(config.node_name(), "test (Browser)");
    assert_eq!(config.version(), "2.0.0-abcdef");
    assert_eq!(config.role(), Role::Light);
}

#[test]
fn a_full_node_is_refused() {
    let chain = ChainDescriptor::new("test".to_string());
    assert_eq!(
        build_configuration(chain, Ok(settings(Role::Full))),
        Err(ConfigError::UnsupportedRole { role: Role::Full })
    );
}

#[test]
fn an_authority_is_refused() {
    let chain = ChainDescriptor::new("test".to_string());
    assert_eq!(
        build_configuration(chain, Ok(settings(Role::Authority))),
        Err(ConfigError::UnsupportedRole { role: Role::Authority })
    );
}

#[test]
fn a_failure_of_the_builder_is_passed_on() {
    let chain = ChainDescriptor::new("test".to_string());
    assert_eq!(
        build_configuration(chain, Err("storage permission denied".to_string())),
        Err(ConfigError::Refused { reason: "storage permission denied".to_string() })
    );
}

#[test]
fn every_configuration_that_is_built_is_light() {
    for role in [Role::Full, Role::Light, Role::Authority] {
        let chain = ChainDescriptor::new("any".to_string());
        if let Ok(config) = build_configuration(chain, Ok(settings(role))) {
            assert_eq!(config.role(), Role::Light);
        } else {
            assert_ne!(role, Role::Light);
        }
    }
}

#[test]
fn the_report_has_six_lines() {
    let chain = ChainDescriptor::new("test".to_string());
    let config = build_configuration(chain, Ok(settings(Role::Light))).unwrap();
    assert_eq!(
        startup_report(&config),
        vec![
            "Substrate browser node".to_string(),
            "  version 2.0.0-abcdef".to_string(),
            "  by Parity Technologies, 2017-2020".to_string(),
            "Chain specification: test".to_string(),
            "Node name: test (Browser)".to_string(),
            "Roles: LIGHT".to_string(),
        ]
    );
}

#[test]
fn the_report_takes_empty_values() {
    let chain = ChainDescriptor::new(String::new());
    let built = Ok(NodeSettings {
        node_name: String::new(),
        version: String::new(),
        role: Role::Light,
    });
    let config = build_configuration(chain, built).unwrap();
    assert_eq!(
        startup_report(&config),
        vec![
            "Substrate browser node".to_string(),
            "  version ".to_string(),
            "  by Parity Technologies, 2017-2020".to_string(),
            "Chain specification: ".to_string(),
            "Node name: ".to_string(),
            "Roles: LIGHT".to_string(),
        ]
    );
}
