//! Remote-URI parsing, the server-add configuration rules, the user
//! configuration accessors, and the development-loop decisions.

use hymod::config::{default_ssh_port, ServerKind, UserConfig};
use hymod::devflow::{gradle_build_args, local_mods_dir, select_dev_artifact};
use hymod::server::{build_server_config, parse_remote_uri};

fn s(t: &str) -> String {
    t.to_string()
}

#[test]
fn parses_user_host_and_path() {
    let (user, host, server_root) =
        parse_remote_uri("root@170.205.24.203:/root/playground/hymodtest").unwrap();
    assert_eq!(user, "root");
    assert_eq!(host, "170.205.24.203");
    assert_eq!(server_root, "/root/playground/hymodtest");
}

#[test]
fn parses_user_and_host_without_path() {
    let (user, host, server_root) = parse_remote_uri("user@example.com").unwrap();
    assert_eq!(user, "user");
    assert_eq!(host, "example.com");
    assert_eq!(server_root, "/opt/hytale");
}

#[test]
fn parses_host_and_path_with_default_user() {
    let (user, host, server_root) = parse_remote_uri("170.205.24.203:/srv/hytale").unwrap();
    assert_eq!(user, "root");
    assert_eq!(host, "170.205.24.203");
    assert_eq!(server_root, "/srv/hytale");
}

#[test]
fn uri_without_host_is_rejected() {
    let err = parse_remote_uri("user@").unwrap_err();
    assert_eq!(err, "Invalid remote URI: host is required");
    assert!(parse_remote_uri("").is_err());
}

#[test]
fn add_local_server_keeps_the_uri_as_root() {
    let c = build_server_config(&s("myserver"), "local", &s("/tmp/myserver")).unwrap();
    assert_eq!(c.server.name, "myserver");
    assert_eq!(c.server.kind, ServerKind::Local);
    assert_eq!(c.server.server_root, "/tmp/myserver");
    assert_eq!(c.server.mods_dir, "mods");
    assert_eq!(c.server.restart.cmd, "systemctl restart hytale");
    assert!(c.server.remote.is_none());
    assert!(c.server.upload.is_none());
}

#[test]
fn add_remote_server_parses_the_uri() {
    let c = build_server_config(
        &s("hymodtest"),
        "remote",
        &s("root@170.205.24.203:/root/playground/hymodtest"),
    )
    .unwrap();
    assert_eq!(c.server.kind, ServerKind::Remote);
    assert_eq!(c.server.server_root, "/root/playground/hymodtest");
    let rb = c.server.remote.unwrap();
    assert_eq!(rb.user, "root");
    assert_eq!(rb.host, "170.205.24.203");
    assert_eq!(rb.port, default_ssh_port());
}

#[test]
fn add_accepts_ssh_as_remote_kind() {
    let c = build_server_config(&s("x"), "ssh", &s("user@example.com")).unwrap();
    assert_eq!(c.server.kind, ServerKind::Remote);
}

#[test]
fn add_rejects_an_unknown_kind() {
    let err = build_server_config(&s("x"), "cloud", &s("/tmp")).unwrap_err();
    assert_eq!(err, "Invalid server kind: cloud. Must be 'local' or 'remote'.");
}

#[test]
fn config_set_get_and_list() {
    let mut config = UserConfig::default();
    config.set("author", s("TestAuthor")).unwrap();
    assert_eq!(config.get("author").unwrap(), "TestAuthor");
    assert_eq!(config.author.as_deref(), Some("TestAuthor"));

    config.set("desc", s("About")).unwrap();
    assert_eq!(config.get("description").unwrap(), "About");
    config.set("description", s("More")).unwrap();
    assert_eq!(config.get("desc").unwrap(), "More");

    config.set("group", s("com.acme")).unwrap();
    config.set("version", s("0.2.0")).unwrap();
    config.set("username", s("acme")).unwrap();
    assert_eq!(config.get("group").unwrap(), "com.acme");
    assert_eq!(config.get("version").unwrap(), "0.2.0");
    assert_eq!(config.get("username").unwrap(), "acme");
    assert!(config.get("missing").is_none());
}

#[test]
fn config_rejects_an_unknown_key_unchanged() {
    let mut config = UserConfig::default();
    config.set("author", s("A")).unwrap();
    let err = config.set("colour", s("red")).unwrap_err();
    assert_eq!(err, "Unknown config key: colour");
    assert_eq!(config.get("author").unwrap(), "A");
    assert!(config.get("colour").is_none());
}

#[test]
fn dev_picks_the_first_deployable_jar() {
    let files = vec![
        s("notes.txt"),
        s("mod-1.0-sources.jar"),
        s("test-mod-1.0.jar"),
        s("other-2.0.jar"),
    ];
    assert_eq!(select_dev_artifact(&files).unwrap(), "test-mod-1.0.jar");
    assert!(select_dev_artifact(&vec![s("readme.md")]).is_none());
}

#[test]
fn dev_build_command_line() {
    assert_eq!(gradle_build_args(None), vec![s("build")]);
    assert_eq!(
        gradle_build_args(Some(&s("acme"))),
        vec![s("build"), s("-Pusername=acme")]
    );
}

#[test]
fn dev_deploys_only_into_local_servers() {
    let local = build_server_config(&s("l"), "local", &s("/srv/hytale")).unwrap();
    assert_eq!(local_mods_dir(&local).unwrap(), "/srv/hytale/mods");
    let remote = build_server_config(&s("r"), "remote", &s("u@h:/srv")).unwrap();
    assert!(local_mods_dir(&remote).is_none());
}
