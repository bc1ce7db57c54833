//! The development-loop feature: build, pick the built jar, copy it into a
//! local server's mods directory. Probing the filesystem and running the
//! build are the caller's; the library owns the decisions — which jar is the
//! artifact, what the build command line is, and where a local server
//! receives mods.

use vstd::prelude::*;

use crate::artifact::is_artifact_name;
use crate::config::{ServerConfig, ServerKind};

verus! {

/// Arguments of the development-loop command.
#[derive(Debug, Clone)]
pub struct DevArgs {
    pub target: Option<String>,
    pub path: Option<String>,
}

/// The first deployable jar in the build output listing, in listing order.
pub open spec fn spec_first_artifact(files: Seq<Seq<char>>) -> Option<Seq<char>>
    decreases files.len(),
{
    if files.len() == 0 {
        None
    } else if is_artifact_name(files[0]) {
        Some(files[0])
    } else {
        spec_first_artifact(files.skip(1))
    }
}

/// Pick the development artifact among the build output's file names: the
/// first deployable jar.
pub fn select_dev_artifact(files: &Vec<String>) -> (r: Option<String>)
    ensures
        match r {
            Some(c) => spec_first_artifact(files@.map_values(|f: String| f@)) == Some(c@),
            None => spec_first_artifact(files@.map_values(|f: String| f@)) is None,
        },
{
    let ghost fv = files@.map_values(|f: String| f@);
    let mut i: usize = 0;
    proof {
        assert(fv.skip(0) =~= fv);
    }
    while i < files.len()
        invariant
            i <= files@.len(),
            fv == files@.map_values(|f: String| f@),
            spec_first_artifact(fv) == spec_first_artifact(fv.skip(i as int)),
        decreases files@.len() - i,
    {
        proof {
            assert(fv.skip(i as int)[0] == fv[i as int]);
            assert(fv[i as int] == files@[i as int]@);
            assert(fv.skip(i as int).skip(1) =~= fv.skip(i + 1));
        }
        if crate::artifact::check_artifact_name(files[i].as_str()) {
            return Some(files[i].clone());
        }
        i = i + 1;
    }
    None
}

/// The Gradle build command line of the development loop: `build`, with the
/// configured username handed through when there is one.
pub fn gradle_build_args(username: Option<&String>) -> (r: Vec<String>)
    ensures
        match username {
            Some(u) => r@.map_values(|a: String| a@) == seq!["build"@, "-Pusername="@ + u@],
            None => r@.map_values(|a: String| a@) == seq!["build"@],
        },
{
    let mut args: Vec<String> = Vec::new();
    args.push(String::from_str("build"));
    match username {
        Some(u) => {
            let mut p = String::from_str("-Pusername=");
            p.append(u.as_str());
            args.push(p);
            proof {
                assert(args@.map_values(|a: String| a@) =~= seq!["build"@, "-Pusername="@ + u@]);
            }
        },
        None => {
            proof {
                assert(args@.map_values(|a: String| a@) =~= seq!["build"@]);
            }
        },
    }
    args
}

/// Where a local server receives mods: its root joined with its mods
/// directory. A remote server has no such place; the development loop only
/// serves local servers.
pub fn local_mods_dir(config: &ServerConfig) -> (r: Option<String>)
    ensures
        match r {
            Some(p) => config.server.kind == ServerKind::Local && p@ == config.server.server_root@
                + "/"@ + config.server.mods_dir@,
            None => config.server.kind == ServerKind::Remote,
        },
{
    match config.server.kind {
        ServerKind::Local => {
            let mut p = config.server.server_root.clone();
            p.append("/");
            p.append(config.server.mods_dir.as_str());
            Some(p)
        },
        ServerKind::Remote => None,
    }
}

} // verus!
