//! The server configuration checks and the profile-property helpers.

use protocol::server::{Config, CoreServer};
use protocol::server_shell::config::RuntimeConfig;
use protocol::{cautious_capacity, Properties, Property};

#[test]
fn default_config_is_valid() {
    let config = Config::default();
    assert!(config.validate().is_ok());
    assert_eq!(config.bind, "0.0.0.0:25565");
    assert_eq!(config.show_max_players, 500);
    assert!(!config.online_mode);
}

#[test]
fn empty_bind_rejected() {
    let mut config = Config::default();
    config.bind = String::new();
    assert_eq!(config.validate(), Err("The bind address must not be empty"));
}

#[test]
fn zero_players_rejected() {
    let mut config = Config::default();
    config.show_max_players = 0;
    assert_eq!(
        config.validate(),
        Err("The maximum number of players must be greater than 0")
    );
}

#[test]
fn core_server_starts() {
    let mut server = CoreServer::new();
    assert!(server.start().is_ok());
}

#[test]
fn runtime_config_thread_counts() {
    assert!(RuntimeConfig::default().validate());
    assert!(RuntimeConfig { tokio_threads: Some(4) }.validate());
    assert!(!RuntimeConfig { tokio_threads: Some(0) }.validate());
}

fn prop(name: &str, value: &str) -> Property {
    Property { name: String::from(name), value: String::from(value), signature: None }
}

#[test]
fn textures_finds_first_match() {
    let props = Properties(vec![
        prop("cape", "a"),
        prop("textures", "first"),
        prop("textures", "second"),
    ]);
    assert_eq!(props.textures().unwrap().value, "first");
    assert_eq!(props.skin(), Some("first"));
}

#[test]
fn textures_absent() {
    let props = Properties(vec![prop("cape", "a")]);
    assert!(props.textures().is_none());
    assert!(props.skin().is_none());
}

#[test]
fn set_skin_updates_existing() {
    let mut props = Properties(vec![prop("cape", "a"), prop("textures", "old")]);
    props.set_skin(String::from("new"), String::from("sig"));
    assert_eq!(props.0.len(), 2);
    assert_eq!(props.0[0], prop("cape", "a"));
    assert_eq!(props.0[1].value, "new");
    assert_eq!(props.0[1].signature.as_deref(), Some("sig"));
    assert_eq!(props.skin(), Some("new"));
}

#[test]
fn set_skin_adds_when_missing() {
    let mut props = Properties(vec![prop("cape", "a")]);
    props.set_skin(String::from("data"), String::from("sig"));
    assert_eq!(props.0.len(), 2);
    assert_eq!(props.0[1].name, "textures");
    assert_eq!(props.skin(), Some("data"));
}

#[test]
fn cautious_capacity_caps_preallocation() {
    assert_eq!(cautious_capacity::<u8>(10), 10);
    assert_eq!(cautious_capacity::<u8>(usize::MAX), 1048576);
    assert_eq!(cautious_capacity::<u64>(usize::MAX), 1048576 / 8);
    assert_eq!(cautious_capacity::<()>(usize::MAX), 0);
}

#[test]
fn version_constants() {
    assert_eq!(protocol::MAX_PACKET_SIZE, 2097152);
    assert_eq!(protocol::PROTOCOL_VERSION, 765);
    assert_eq!(protocol::MINECRAFT_VERSION, "1.20.4");
}
