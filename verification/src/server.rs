//! Server-management commands: the command data and the pure rules they
//! apply. Reading, writing and listing the stored configurations is I/O and
//! stays with the caller; what the library owns is how a command's inputs
//! become a `ServerConfig`.

use vstd::prelude::*;

use crate::config::{RemoteBlock, RestartBlock, ServerBlock, ServerConfig, ServerKind};
use crate::strutil::{
    concat2, drop_prefix, find_char, find_sub, spec_find_char, spec_find_sub, str_eq, take_prefix,
};

verus! {

/// Arguments of `server add`.
#[derive(Debug, Clone)]
pub struct ServerAddArgs {
    pub name: String,
    pub kind: String,
    pub uri: String,
    pub server_root: Option<String>,
}

/// Arguments of `server list`.
#[derive(Debug, Clone)]
pub struct ServerListArgs {
    pub filter_kind: Option<String>,
}

/// Arguments of `server default`.
#[derive(Debug, Clone)]
pub struct ServerDefaultArgs {
    pub kind: String,
    pub name: String,
}

/// Arguments of `server remove`.
#[derive(Debug, Clone)]
pub struct ServerRemoveArgs {
    pub name: String,
}

/// Arguments of `server get`.
#[derive(Debug, Clone)]
pub struct ServerGetArgs {
    pub name: String,
}

/// One server-management command.
#[derive(Debug, Clone)]
pub enum ServerCommand {
    List(ServerListArgs),
    Add(ServerAddArgs),
    Default(ServerDefaultArgs),
    Remove(ServerRemoveArgs),
    Get(ServerGetArgs),
}

/// How a remote URI splits into user, host and server root.
///
/// The user is everything before the first `@` (defaulting to `root` when
/// there is none or it is empty), the server root starts at the first `:/`
/// (defaulting to `/opt/hytale`), and what remains is the host, which must
/// not be empty.
pub open spec fn spec_parse_remote_uri(uri: Seq<char>) -> Option<
    (Seq<char>, Seq<char>, Seq<char>),
> {
    let at = spec_find_char(uri, '@');
    let user = match at {
        Some(i) => if i > 0 {
            uri.take(i)
        } else {
            "root"@
        },
        None => "root"@,
    };
    let rest = match at {
        Some(i) => if i > 0 {
            uri.skip(i + 1)
        } else {
            uri
        },
        None => uri,
    };
    let colon = spec_find_sub(rest, ":/"@);
    let host = match colon {
        Some(j) => if j > 0 {
            rest.take(j)
        } else {
            rest
        },
        None => rest,
    };
    let root = match colon {
        Some(j) => if j > 0 {
            rest.skip(j + 1)
        } else {
            "/opt/hytale"@
        },
        None => "/opt/hytale"@,
    };
    if host.len() == 0 {
        None
    } else {
        Some((user, host, root))
    }
}

/// Split a remote URI of the shape `[user@]host[:/server/root]` into user,
/// host and server root, applying the defaults of `spec_parse_remote_uri`.
/// A URI without a host is answered with the error value below, never by
/// aborting: a malformed URI is user input, and the library's error surface
/// is how user input is refused.
pub fn parse_remote_uri(uri: &str) -> (r: Result<(String, String, String), String>)
    ensures
        match r {
            Ok(parts) => spec_parse_remote_uri(uri@) == Some((parts.0@, parts.1@, parts.2@)),
            Err(e) => spec_parse_remote_uri(uri@) is None && e@
                == "Invalid remote URI: host is required"@,
        },
{
    let len = uri.unicode_len();
    let at = find_char(uri, '@');
    let (user, rest): (String, String) = match at {
        Some(i) => if i > 0 {
            (take_prefix(uri, i), drop_prefix(uri, i + 1))
        } else {
            (String::from_str("root"), String::from_str(uri))
        },
        None => (String::from_str("root"), String::from_str(uri)),
    };
    let colon = find_sub(rest.as_str(), ":/");
    let (host, root): (String, String) = match colon {
        Some(j) => if j > 0 {
            (take_prefix(rest.as_str(), j), drop_prefix(rest.as_str(), j + 1))
        } else {
            (rest, String::from_str("/opt/hytale"))
        },
        None => (rest, String::from_str("/opt/hytale")),
    };
    if host.as_str().unicode_len() == 0 {
        Err(String::from_str("Invalid remote URI: host is required"))
    } else {
        Ok((user, host, root))
    }
}

/// Build the configuration that `server add` stores, from the command's
/// inputs alone: a local server keeps the URI as its root; a remote one
/// (`remote` or `ssh`) parses the URI into user, host and root and reaches
/// the host as that user on the default port. Every new server deploys into
/// `mods` under its root and restarts through the stock service command.
pub fn build_server_config(name: &String, kind: &str, uri: &String) -> (r: Result<
    ServerConfig,
    String,
>)
    ensures
        match r {
            Ok(c) => {
                &&& c.server.name@ == name@
                &&& c.server.mods_dir@ == "mods"@
                &&& c.server.restart.cmd@ == "systemctl restart hytale"@
                &&& c.server.upload is None
                &&& if kind@ == "local"@ {
                    &&& c.server.kind == ServerKind::Local
                    &&& c.server.server_root@ == uri@
                    &&& c.server.remote is None
                } else {
                    &&& (kind@ == "remote"@ || kind@ == "ssh"@)
                    &&& c.server.kind == ServerKind::Remote
                    &&& match (c.server.remote, spec_parse_remote_uri(uri@)) {
                        (Some(rb), Some(parts)) => {
                            &&& rb.user@ == parts.0
                            &&& rb.host@ == parts.1
                            &&& c.server.server_root@ == parts.2
                            &&& rb.port == 22
                            &&& rb.identity_file is None
                            &&& rb.known_hosts_file is None
                        },
                        _ => false,
                    }
                }
            },
            Err(e) => {
                ||| (!(kind@ == "local"@ || kind@ == "remote"@ || kind@ == "ssh"@) && e@
                    == "Invalid server kind: "@ + kind@ + ". Must be 'local' or 'remote'."@)
                ||| ((kind@ == "remote"@ || kind@ == "ssh"@) && spec_parse_remote_uri(uri@) is None
                    && e@ == "Invalid remote URI: host is required"@)
            },
        },
        r is Err <==> (!(kind@ == "local"@ || kind@ == "remote"@ || kind@ == "ssh"@) || ((kind@
            == "remote"@ || kind@ == "ssh"@) && spec_parse_remote_uri(uri@) is None)),
{
    let is_local = str_eq(kind, "local");
    let is_remote = str_eq(kind, "remote") || str_eq(kind, "ssh");
    if !is_local && !is_remote {
        let mut m = String::from_str("Invalid server kind: ");
        m.append(kind);
        m.append(". Must be 'local' or 'remote'.");
        return Err(m);
    }
    proof {
        reveal_strlit("local");
        reveal_strlit("remote");
        reveal_strlit("ssh");
        assert("local"@.len() == 5);
        assert("remote"@.len() == 6);
        assert("ssh"@.len() == 3);
    }
    let (server_kind, server_root, remote): (ServerKind, String, Option<RemoteBlock>) = if is_local {
        (ServerKind::Local, uri.clone(), None)
    } else {
        match parse_remote_uri(uri.as_str()) {
            Ok((user, host, root)) => (
                ServerKind::Remote,
                root,
                Some(
                    RemoteBlock {
                        host,
                        user,
                        port: 22,
                        identity_file: None,
                        known_hosts_file: None,
                    },
                ),
            ),
            Err(e) => {
                return Err(e);
            },
        }
    };
    Ok(
        ServerConfig {
            server: ServerBlock {
                name: name.clone(),
                kind: server_kind,
                server_root,
                mods_dir: String::from_str("mods"),
                restart: RestartBlock { cmd: String::from_str("systemctl restart hytale") },
                remote,
                upload: None,
            },
        },
    )
}

} // verus!
