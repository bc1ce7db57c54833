//! The deploy and build plan builders, transport selection, artifact
//! resolution and the project templates.

use hymod::artifact::{jar_name_from_gradle_properties, resolve_mod_artifact};
use hymod::buildcmd::{generate_plan as build_plan, BuildArgs};
use hymod::config::{
    RemoteBlock, RestartBlock, ServerBlock, ServerConfig, ServerKind, UploadBlock,
};
use hymod::deploy::{generate_plan, resolve_transport, DeployArgs, Transport};
use hymod::step::Step;
use hymod::templates::{mod_json, settings_gradle};

fn s(t: &str) -> String {
    t.to_string()
}

fn local_config() -> ServerConfig {
    ServerConfig {
        server: ServerBlock {
            name: s("prod"),
            kind: ServerKind::Local,
            server_root: s("/tmp/server"),
            mods_dir: s("mods"),
            restart: RestartBlock { cmd: s("systemctl restart hytale") },
            remote: None,
            upload: None,
        },
    }
}

fn remote_config() -> ServerConfig {
    ServerConfig {
        server: ServerBlock {
            name: s("prod"),
            kind: ServerKind::Remote,
            server_root: s("/opt/hytale"),
            mods_dir: s("mods"),
            restart: RestartBlock { cmd: s("systemctl restart hytale") },
            remote: Some(RemoteBlock {
                host: s("example.com"),
                user: s("user"),
                port: 22,
                identity_file: None,
                known_hosts_file: None,
            }),
            upload: None,
        },
    }
}

fn args() -> DeployArgs {
    DeployArgs { server_name: None, transport: None, restart: false, dry_run: false, path: None }
}

fn artifact() -> hymod::artifact::ResolvedArtifact {
    hymod::artifact::ResolvedArtifact {
        source_path: s("build/libs/mod-1.0.0.jar"),
        target_file_name: s("mod-1.0.0.jar"),
    }
}

#[test]
fn local_deploy_builds_then_copies() {
    let plan = generate_plan(&args(), &local_config(), &s("/repo"), &artifact(), true).unwrap();
    assert_eq!(plan.steps.len(), 2);
    assert_eq!(
        plan.steps[0],
        Step::RunProcess { cmd: s("./gradlew"), args: vec![s("build")], cwd: Some(s("/repo")) }
    );
    assert_eq!(
        plan.steps[1],
        Step::CopyFile {
            from: s("build/libs/mod-1.0.0.jar"),
            to: s("/tmp/server/mods/mod-1.0.0.jar"),
        }
    );
}

#[test]
fn remote_deploy_makes_directory_then_uploads_rsync() {
    let plan = generate_plan(&args(), &remote_config(), &s("/repo"), &artifact(), true).unwrap();
    assert_eq!(plan.steps.len(), 3);
    assert_eq!(
        plan.steps[1],
        Step::SshRun {
            host: s("example.com"),
            user: s("user"),
            cmd: s("mkdir -p /opt/hytale/mods"),
        }
    );
    assert_eq!(
        plan.steps[2],
        Step::UploadRsync {
            local: s("build/libs/mod-1.0.0.jar"),
            remote: s("user@example.com:/opt/hytale/mods/mod-1.0.0.jar"),
            opts: s("-avz"),
        }
    );
}

#[test]
fn remote_deploy_falls_back_to_scp_without_rsync() {
    let plan = generate_plan(&args(), &remote_config(), &s("/repo"), &artifact(), false).unwrap();
    assert_eq!(
        plan.steps[2],
        Step::UploadScp {
            local: s("build/libs/mod-1.0.0.jar"),
            remote: s("user@example.com:/opt/hytale/mods/mod-1.0.0.jar"),
        }
    );
}

#[test]
fn explicit_scp_wins_over_available_rsync() {
    let mut a = args();
    a.transport = Some(s("scp"));
    let plan = generate_plan(&a, &remote_config(), &s("/repo"), &artifact(), true).unwrap();
    assert!(matches!(plan.steps[2], Step::UploadScp { .. }));
}

#[test]
fn restart_step_comes_last_only_when_asked() {
    let mut a = args();
    a.restart = true;
    let plan = generate_plan(&a, &local_config(), &s("/repo"), &artifact(), true).unwrap();
    assert_eq!(plan.steps.len(), 3);
    assert_eq!(
        plan.steps[2],
        Step::RunProcess { cmd: s("systemctl restart hytale"), args: vec![], cwd: None }
    );
}

#[test]
fn unknown_transport_is_rejected_with_its_name() {
    let mut a = args();
    a.transport = Some(s("carrier-pigeon"));
    let err = generate_plan(&a, &remote_config(), &s("/repo"), &artifact(), true).unwrap_err();
    assert_eq!(err, "Invalid transport: must be rsync or scp (got 'carrier-pigeon')");
}

#[test]
fn remote_config_without_remote_block_is_rejected() {
    let mut config = remote_config();
    config.server.remote = None;
    let err = generate_plan(&args(), &config, &s("/repo"), &artifact(), true).unwrap_err();
    assert_eq!(err, "Remote server config missing remote block");
}

#[test]
fn transport_policy() {
    assert_eq!(resolve_transport(Some(&s("rsync")), false).unwrap(), Transport::Rsync);
    assert_eq!(resolve_transport(Some(&s("scp")), true).unwrap(), Transport::Scp);
    assert_eq!(resolve_transport(None, true).unwrap(), Transport::Rsync);
    assert_eq!(resolve_transport(None, false).unwrap(), Transport::Scp);
    assert!(resolve_transport(Some(&s("ftp")), true).is_err());
}

#[test]
fn build_plan_announces_the_build() {
    let plan = build_plan(BuildArgs { release: false });
    assert_eq!(plan.steps.len(), 1);
    assert_eq!(
        plan.steps[0],
        Step::RunProcess { cmd: s("echo"), args: vec![s("Building project...")], cwd: None }
    );
}

#[test]
fn artifact_prefers_the_manifest_name_when_present_on_disk() {
    let manifest = s("{\"Name\": \"custom-mod-name\", \"Version\": \"1.2.3\"}");
    let files = vec![s("custom-mod-name-1.2.3.jar"), s("leftover-build-artifact.jar")];
    let r = resolve_mod_artifact(&s("/proj"), Some(&manifest), None, &files);
    assert_eq!(r.source_path, "/proj/build/libs/custom-mod-name-1.2.3.jar");
    assert_eq!(r.target_file_name, "custom-mod-name-1.2.3.jar");
}

#[test]
fn artifact_keeps_the_manifest_target_name_but_takes_what_is_there() {
    let manifest = s("{\"Name\": \"wanted\", \"Version\": \"2.0\"}");
    let files = vec![s("built-1.0.jar")];
    let r = resolve_mod_artifact(&s("/proj"), Some(&manifest), None, &files);
    assert_eq!(r.source_path, "/proj/build/libs/built-1.0.jar");
    assert_eq!(r.target_file_name, "wanted-2.0.jar");
}

#[test]
fn artifact_skips_sources_javadoc_and_plain_jars() {
    let files = vec![
        s("mod-1.0-sources.jar"),
        s("mod-1.0-javadoc.jar"),
        s("mod-1.0-plain.jar"),
        s("mod-1.0.jar"),
    ];
    let r = resolve_mod_artifact(&s("/p"), None, None, &files);
    assert_eq!(r.source_path, "/p/build/libs/mod-1.0.jar");
    assert_eq!(r.target_file_name, "mod-1.0.jar");
}

#[test]
fn artifact_takes_the_last_candidate_in_sort_order() {
    let files = vec![s("a-2.0.jar"), s("a-10.0.jar"), s("b-1.0.jar")];
    let r = resolve_mod_artifact(&s("/p"), None, None, &files);
    // Plain lexicographic order: "b-1.0.jar" sorts last.
    assert_eq!(r.target_file_name, "b-1.0.jar");
}

#[test]
fn artifact_falls_back_to_the_gradle_guess() {
    let props = s("mod_name=Foo \nmod_version= 2.1\n");
    let r = resolve_mod_artifact(&s("/p"), None, Some(&props), &vec![]);
    assert_eq!(r.source_path, "/p/build/libs/Foo-2.1.jar");
    assert_eq!(r.target_file_name, "Foo-2.1.jar");
}

#[test]
fn gradle_guess_defaults() {
    assert_eq!(jar_name_from_gradle_properties(None), "mod.jar");
    assert_eq!(jar_name_from_gradle_properties(Some(&s(""))), "mod-1.0.0.jar");
    assert_eq!(
        jar_name_from_gradle_properties(Some(&s("mod_name=x\nmod_name=y\n"))),
        "y-1.0.0.jar"
    );
}

#[test]
fn bad_manifest_falls_back_to_the_candidates() {
    let manifest = s("not json at all");
    let files = vec![s("real-1.0.jar")];
    let r = resolve_mod_artifact(&s("/p"), Some(&manifest), None, &files);
    assert_eq!(r.target_file_name, "real-1.0.jar");
}

#[test]
fn templates_render_exactly() {
    assert_eq!(
        mod_json("power", "com.acme.power.Main"),
        "{\n  \"id\": \"power\",\n  \"mainClass\": \"com.acme.power.Main\"\n}\n"
    );
    assert_eq!(settings_gradle("power"), "rootProject.name = 'power'\n");
}

#[test]
fn upload_block_carries_its_options() {
    // The configuration data model keeps the upload preferences as plain
    // values.
    let block = UploadBlock {
        method: s("rsync"),
        rsync: Some(hymod::config::RsyncBlock { opts: s("-avz") }),
        scp: Some(hymod::config::ScpBlock { opts: s("-q") }),
    };
    assert_eq!(block.rsync.unwrap().opts, "-avz");
    assert_eq!(block.scp.unwrap().opts, "-q");
}
