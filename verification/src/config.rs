//! Configuration data: the per-server configuration blocks that feature
//! modules read when building plans, and the global per-user defaults.
//!
//! Persistence (the YAML files under the user's home directory) is an
//! external collaborator: callers load and save these values and pass them
//! in; the library only defines the data and the pure accessors.

use vstd::prelude::*;

use crate::strutil::{concat2, str_eq};

verus! {

/// Whether a configured server lives on this machine or behind a remote
/// shell.
#[derive(Debug, Clone, Copy, PartialEq, Eq, Structural)]
pub enum ServerKind {
    Local,
    Remote,
}

/// How to restart the server after a deployment.
#[derive(Debug, Clone, PartialEq)]
pub struct RestartBlock {
    pub cmd: String,
}

/// How to reach a remote server.
#[derive(Debug, Clone, PartialEq)]
pub struct RemoteBlock {
    pub host: String,
    pub user: String,
    pub port: u16,
    pub identity_file: Option<String>,
    pub known_hosts_file: Option<String>,
}

/// Options of an rsync-style upload.
#[derive(Debug, Clone, PartialEq)]
pub struct RsyncBlock {
    pub opts: String,
}

/// Options of a secure-copy upload.
#[derive(Debug, Clone, PartialEq)]
pub struct ScpBlock {
    pub opts: String,
}

/// Upload preferences of a server.
#[derive(Debug, Clone, PartialEq)]
pub struct UploadBlock {
    pub method: String,
    pub rsync: Option<RsyncBlock>,
    pub scp: Option<ScpBlock>,
}

/// One server's configuration.
#[derive(Debug, Clone, PartialEq)]
pub struct ServerBlock {
    pub name: String,
    pub kind: ServerKind,
    pub server_root: String,
    pub mods_dir: String,
    pub restart: RestartBlock,
    pub remote: Option<RemoteBlock>,
    pub upload: Option<UploadBlock>,
}

/// The top-level server configuration document.
#[derive(Debug, Clone, PartialEq)]
pub struct ServerConfig {
    pub server: ServerBlock,
}

/// The secure-shell port assumed when a remote block names none.
pub fn default_ssh_port() -> (r: u16)
    ensures
        r == 22,
{
    22
}

/// Global per-user defaults consulted when scaffolding a new project.
#[derive(Debug, Clone, PartialEq)]
pub struct UserConfig {
    pub author: Option<String>,
    pub group: Option<String>,
    pub version: Option<String>,
    pub desc: Option<String>,
    pub username: Option<String>,
}

/// The view of an optional string.
pub open spec fn opt_view(o: Option<String>) -> Option<Seq<char>> {
    match o {
        Some(s) => Some(s@),
        None => None,
    }
}

/// The keys `UserConfig::set` and `UserConfig::get` accept.
pub open spec fn is_config_key(key: Seq<char>) -> bool {
    ||| key == "author"@
    ||| key == "group"@
    ||| key == "version"@
    ||| key == "desc"@
    ||| key == "description"@
    ||| key == "username"@
}

impl Default for UserConfig {
    /// A configuration with nothing set.
    fn default() -> (r: UserConfig)
        ensures
            r.author is None,
            r.group is None,
            r.version is None,
            r.desc is None,
            r.username is None,
    {
        UserConfig { author: None, group: None, version: None, desc: None, username: None }
    }
}

impl UserConfig {
    /// The views of the five fields, in declaration order.
    pub open spec fn fields_view(self) -> (
        Option<Seq<char>>,
        Option<Seq<char>>,
        Option<Seq<char>>,
        Option<Seq<char>>,
        Option<Seq<char>>,
    ) {
        (
            opt_view(self.author),
            opt_view(self.group),
            opt_view(self.version),
            opt_view(self.desc),
            opt_view(self.username),
        )
    }

    /// What `set` leaves in the five fields: the addressed field holds the
    /// new value, the others keep theirs. `desc` and `description` address
    /// the same field.
    pub open spec fn spec_set_fields(
        t: (
            Option<Seq<char>>,
            Option<Seq<char>>,
            Option<Seq<char>>,
            Option<Seq<char>>,
            Option<Seq<char>>,
        ),
        key: Seq<char>,
        value: Seq<char>,
    ) -> (
        Option<Seq<char>>,
        Option<Seq<char>>,
        Option<Seq<char>>,
        Option<Seq<char>>,
        Option<Seq<char>>,
    ) {
        if key == "author"@ {
            (Some(value), t.1, t.2, t.3, t.4)
        } else if key == "group"@ {
            (t.0, Some(value), t.2, t.3, t.4)
        } else if key == "version"@ {
            (t.0, t.1, Some(value), t.3, t.4)
        } else if key == "desc"@ || key == "description"@ {
            (t.0, t.1, t.2, Some(value), t.4)
        } else if key == "username"@ {
            (t.0, t.1, t.2, t.3, Some(value))
        } else {
            t
        }
    }

    /// Set the configuration value named by `key`; an unknown key is
    /// rejected, naming itself, and changes nothing.
    pub fn set(&mut self, key: &str, value: String) -> (r: Result<(), String>)
        ensures
            r is Ok <==> is_config_key(key@),
            r is Ok ==> final(self).fields_view() == UserConfig::spec_set_fields(
                old(self).fields_view(),
                key@,
                value@,
            ),
            match r {
                Err(e) => *final(self) == *old(self) && e@ == "Unknown config key: "@ + key@,
                Ok(_) => true,
            },
    {
        if str_eq(key, "author") {
            self.author = Some(value);
            Ok(())
        } else if str_eq(key, "group") {
            self.group = Some(value);
            Ok(())
        } else if str_eq(key, "version") {
            self.version = Some(value);
            Ok(())
        } else if str_eq(key, "desc") || str_eq(key, "description") {
            self.desc = Some(value);
            Ok(())
        } else if str_eq(key, "username") {
            self.username = Some(value);
            Ok(())
        } else {
            Err(concat2("Unknown config key: ", key))
        }
    }

    /// What `get` answers for `key`: the addressed field's value, and
    /// nothing for an unknown key.
    pub open spec fn spec_get(self, key: Seq<char>) -> Option<Seq<char>> {
        if key == "author"@ {
            opt_view(self.author)
        } else if key == "group"@ {
            opt_view(self.group)
        } else if key == "version"@ {
            opt_view(self.version)
        } else if key == "desc"@ || key == "description"@ {
            opt_view(self.desc)
        } else if key == "username"@ {
            opt_view(self.username)
        } else {
            None
        }
    }

    /// Read the configuration value named by `key`.
    pub fn get(&self, key: &str) -> (r: Option<String>)
        ensures
            opt_view(r) == self.spec_get(key@),
    {
        if str_eq(key, "author") {
            clone_opt(&self.author)
        } else if str_eq(key, "group") {
            clone_opt(&self.group)
        } else if str_eq(key, "version") {
            clone_opt(&self.version)
        } else if str_eq(key, "desc") || str_eq(key, "description") {
            clone_opt(&self.desc)
        } else if str_eq(key, "username") {
            clone_opt(&self.username)
        } else {
            None
        }
    }
}

/// Clone an optional string, keeping its view.
fn clone_opt(o: &Option<String>) -> (r: Option<String>)
    ensures
        opt_view(r) == opt_view(*o),
{
    match o {
        Some(s) => Some(s.clone()),
        None => None,
    }
}

} // verus!
