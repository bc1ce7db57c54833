//! The deploy feature: build the project, then move the artifact to the
//! configured server — by file copy for a local server, by an upload over
//! the chosen transport (after making sure the remote directory exists) for
//! a remote one — and optionally restart the server afterwards.

use vstd::prelude::*;

use crate::artifact::ResolvedArtifact;
use crate::config::{opt_view, ServerConfig, ServerKind};
use crate::effects::fs_is_file;
use crate::step::{is_copy_step, is_run_step, is_rsync_step, is_scp_step, is_ssh_step, Plan, Step};
use crate::strutil::str_eq;

verus! {

/// The path the availability probe asks about: `cmd` joined under `dir`.
fn command_candidate_path(dir: &String, cmd: &String) -> (r: String)
    ensures
        r@ == dir@ + "/"@ + cmd@,
{
    let mut candidate = dir.clone();
    candidate.append("/");
    candidate.append(cmd.as_str());
    candidate
}

/// Whether `dir` holds a file named `cmd`: the probe behind the rsync
/// availability check, asking about exactly the path
/// `command_candidate_path` fixes. What is on disk decides the answer, so
/// nothing more can be promised of it.
pub fn command_exists_in_dir(dir: &String, cmd: &String) -> (r: bool) {
    fs_is_file(&command_candidate_path(dir, cmd))
}

/// Arguments of the deploy command.
#[derive(Debug, Clone)]
pub struct DeployArgs {
    pub server_name: Option<String>,
    pub transport: Option<String>,
    pub restart: bool,
    pub dry_run: bool,
    pub path: Option<String>,
}

/// The mechanism that moves an artifact to a remote host.
#[derive(Debug, Clone, Copy, PartialEq, Eq, Structural)]
pub enum Transport {
    Rsync,
    Scp,
}

/// The transport selection policy: an explicit request wins and must name
/// `rsync` or `scp`; without one, rsync is preferred when it is available
/// and scp is the fallback.
pub open spec fn spec_transport(explicit: Option<Seq<char>>, rsync_available: bool) -> Option<
    Transport,
> {
    match explicit {
        Some(t) => if t == "rsync"@ {
            Some(Transport::Rsync)
        } else if t == "scp"@ {
            Some(Transport::Scp)
        } else {
            None
        },
        None => if rsync_available {
            Some(Transport::Rsync)
        } else {
            Some(Transport::Scp)
        },
    }
}

/// Select the transport by the policy of `spec_transport`. Any other
/// explicit name is answered with the error value below, never by
/// aborting: bad transport names are user input, and the library's error
/// surface is how user input is refused.
pub fn resolve_transport(explicit: Option<&String>, rsync_available: bool) -> (r: Result<
    Transport,
    String,
>)
    ensures
        match r {
            Ok(t) => spec_transport(
                match explicit {
                    Some(s) => Some(s@),
                    None => None,
                },
                rsync_available,
            ) == Some(t),
            Err(e) => match explicit {
                Some(s) => !(s@ == "rsync"@) && !(s@ == "scp"@) && e@
                    == "Invalid transport: must be rsync or scp (got '"@ + s@ + "')"@,
                None => false,
            },
        },
{
    match explicit {
        Some(t) => {
            if str_eq(t.as_str(), "rsync") {
                Ok(Transport::Rsync)
            } else if str_eq(t.as_str(), "scp") {
                Ok(Transport::Scp)
            } else {
                let mut m = String::from_str("Invalid transport: must be rsync or scp (got '");
                m.append(t.as_str());
                m.append("')");
                proof {
                    assert(m@ =~= "Invalid transport: must be rsync or scp (got '"@ + t@ + "')"@);
                }
                Err(m)
            }
        },
        None => {
            if rsync_available {
                Ok(Transport::Rsync)
            } else {
                Ok(Transport::Scp)
            }
        },
    }
}

/// Build the deploy plan.
///
/// The plan always starts by running `./gradlew build` in the mod
/// directory. For a local server the artifact is then copied into the
/// server's mods directory under its target name. For a remote server the
/// mods directory is first created over a secure shell, then the artifact
/// is uploaded to `user@host:<mods dir>/<target name>` by the selected
/// transport (rsync with options `-avz`, or scp). With `restart` set, the
/// configured restart command runs last. A remote server without a remote
/// block, or an unknown explicit transport, is rejected.
pub fn generate_plan(
    args: &DeployArgs,
    config: &ServerConfig,
    mod_dir: &String,
    artifact: &ResolvedArtifact,
    rsync_available: bool,
) -> (r: Result<Plan, String>)
    ensures
        r is Err <==> (config.server.kind == ServerKind::Remote && (config.server.remote is None
            || spec_transport(opt_view(args.transport), rsync_available) is None)),
        match r {
            Ok(plan) => ({
                let steps = plan.steps@;
                let extra: int = if args.restart {
                    1
                } else {
                    0
                };
                let dest_dir = config.server.server_root@ + "/"@ + config.server.mods_dir@;
                let dest_file = dest_dir + "/"@ + artifact.target_file_name@;
                &&& steps.len() == (if config.server.kind == ServerKind::Local {
                    2int
                } else {
                    3int
                }) + extra
                &&& is_run_step(steps[0], "./gradlew"@, seq!["build"@], Some(mod_dir@))
                &&& (config.server.kind == ServerKind::Local ==> is_copy_step(
                    steps[1],
                    artifact.source_path@,
                    dest_file,
                ))
                &&& (config.server.kind == ServerKind::Remote ==> match config.server.remote {
                    Some(rb) => {
                        let remote_dest = rb.user@ + "@"@ + rb.host@ + ":"@ + dest_file;
                        &&& is_ssh_step(steps[1], rb.host@, rb.user@, "mkdir -p "@ + dest_dir)
                        &&& (spec_transport(opt_view(args.transport), rsync_available) == Some(
                            Transport::Rsync,
                        ) ==> is_rsync_step(steps[2], artifact.source_path@, remote_dest, "-avz"@))
                        &&& (spec_transport(opt_view(args.transport), rsync_available) == Some(
                            Transport::Scp,
                        ) ==> is_scp_step(steps[2], artifact.source_path@, remote_dest))
                    },
                    None => false,
                })
                &&& (args.restart ==> is_run_step(
                    steps[steps.len() - 1],
                    config.server.restart.cmd@,
                    Seq::empty(),
                    None,
                ))
            }),
            Err(e) => if config.server.remote is None {
                e@ == "Remote server config missing remote block"@
            } else {
                match args.transport {
                    Some(t) => e@ == "Invalid transport: must be rsync or scp (got '"@ + t@
                        + "')"@,
                    None => false,
                }
            },
        },
{
    let mut steps: Vec<Step> = Vec::new();

    let mut gradle_args: Vec<String> = Vec::new();
    gradle_args.push(String::from_str("build"));
    proof {
        assert(gradle_args@.map_values(|x: String| x@) =~= seq!["build"@]);
    }
    steps.push(
        Step::RunProcess {
            cmd: String::from_str("./gradlew"),
            args: gradle_args,
            cwd: Some(mod_dir.clone()),
        },
    );

    let mut dest_dir = config.server.server_root.clone();
    dest_dir.append("/");
    dest_dir.append(config.server.mods_dir.as_str());
    let mut dest_file = dest_dir.clone();
    dest_file.append("/");
    dest_file.append(artifact.target_file_name.as_str());
    proof {
        assert(dest_dir@ == config.server.server_root@ + "/"@ + config.server.mods_dir@);
        assert(dest_file@ == dest_dir@ + "/"@ + artifact.target_file_name@);
    }

    match config.server.kind {
        ServerKind::Local => {
            steps.push(Step::CopyFile { from: artifact.source_path.clone(), to: dest_file });
        },
        ServerKind::Remote => {
            match &config.server.remote {
                None => {
                    return Err(String::from_str("Remote server config missing remote block"));
                },
                Some(rb) => {
                    let mut mk = String::from_str("mkdir -p ");
                    mk.append(dest_dir.as_str());
                    steps.push(
                        Step::SshRun { host: rb.host.clone(), user: rb.user.clone(), cmd: mk },
                    );

                    let mut remote_dest = rb.user.clone();
                    remote_dest.append("@");
                    remote_dest.append(rb.host.as_str());
                    remote_dest.append(":");
                    remote_dest.append(dest_file.as_str());
                    proof {
                        assert(remote_dest@ =~= rb.user@ + "@"@ + rb.host@ + ":"@ + dest_file@);
                    }

                    let chosen = match &args.transport {
                        Some(t) => resolve_transport(Some(t), rsync_available),
                        None => resolve_transport(None, rsync_available),
                    };
                    match chosen {
                        Err(e) => {
                            return Err(e);
                        },
                        Ok(Transport::Rsync) => {
                            steps.push(
                                Step::UploadRsync {
                                    local: artifact.source_path.clone(),
                                    remote: remote_dest,
                                    opts: String::from_str("-avz"),
                                },
                            );
                        },
                        Ok(Transport::Scp) => {
                            steps.push(
                                Step::UploadScp {
                                    local: artifact.source_path.clone(),
                                    remote: remote_dest,
                                },
                            );
                        },
                    }
                },
            }
        },
    }

    if args.restart {
        let empty_args: Vec<String> = Vec::new();
        proof {
            assert(empty_args@.map_values(|x: String| x@) =~= Seq::<Seq<char>>::empty());
        }
        steps.push(
            Step::RunProcess {
                cmd: config.server.restart.cmd.clone(),
                args: empty_args,
                cwd: None,
            },
        );
    }

    Ok(Plan { steps })
}

} // verus!
