//! Trusted wrappers around the operating-system effects that steps describe.
//!
//! Every function here is `external_body`: its body makes one outside call
//! and converts the arguments and the result, nothing else. The outcomes are
//! environment-dependent, so the contracts promise nothing about success;
//! the verified handlers interpret each outcome and are proved correct for
//! every value a wrapper can hand back.

use std::io::Write;
use vstd::prelude::*;

verus! {

/// Relies on the `writeln` macro over `std::io::Stdout`: prints one line to
/// standard output. Used only by the dry-run preview.
#[verifier::external_body]
pub(crate) fn print_line(line: &str) {
    let _ = writeln!(std::io::stdout(), "{}", line);
}

/// Relies on `duct::cmd` / `Expression::run`: spawns `cmd` with `args`
/// (in `cwd` when given), inherits standard output and error, waits for the
/// exit status. `Ok(true)` is a zero exit status, `Ok(false)` a non-zero
/// one, `Err` a spawn failure with the operating system's message.
#[verifier::external_body]
pub(crate) fn run_command(cmd: &str, args: &Vec<String>, cwd: Option<&String>) -> (r: Result<
    bool,
    String,
>) {
    let expr = duct::cmd(cmd, args.clone());
    let expr = match cwd {
        Some(d) => expr.dir(d.as_str()),
        None => expr,
    };
    match expr.unchecked().run() {
        Ok(out) => Ok(out.status.success()),
        Err(e) => Err(e.to_string()),
    }
}

/// Relies on `fs_err::create_dir_all`: creates the directory and all missing
/// ancestors; succeeds when the directory already exists.
#[verifier::external_body]
pub(crate) fn fs_create_dir_all(path: &String) -> (r: Result<(), String>) {
    fs_err::create_dir_all(path.as_str()).map_err(|e| e.to_string())
}

/// Relies on `fs_err::write`: creates or overwrites the file at `path` with
/// the given bytes.
#[verifier::external_body]
pub(crate) fn fs_write(path: &String, contents: &[u8]) -> (r: Result<(), String>) {
    fs_err::write(path.as_str(), contents).map_err(|e| e.to_string())
}

/// Relies on `fs_err::copy`: copies the file at `from` to `to`, overwriting
/// `to` if it exists; fails when `from` is missing or unreadable.
#[verifier::external_body]
pub(crate) fn fs_copy(from: &String, to: &String) -> (r: Result<(), String>) {
    match fs_err::copy(from.as_str(), to.as_str()) {
        Ok(_) => Ok(()),
        Err(e) => Err(e.to_string()),
    }
}

/// Relies on `fs_err::remove_file`: removes the file or symbolic link at
/// `path`.
#[verifier::external_body]
pub(crate) fn fs_remove_file(path: &String) -> (r: Result<(), String>) {
    fs_err::remove_file(path.as_str()).map_err(|e| e.to_string())
}

/// Relies on `fs_err::metadata`: whether a filesystem object exists at
/// `path`, following symbolic links.
#[verifier::external_body]
pub(crate) fn fs_path_exists(path: &String) -> (r: bool) {
    fs_err::metadata(path.as_str()).is_ok()
}

/// Relies on `fs_err::metadata`: whether `path` names an existing regular
/// file.
#[verifier::external_body]
pub(crate) fn fs_is_file(path: &String) -> (r: bool) {
    match fs_err::metadata(path.as_str()) {
        Ok(m) => m.is_file(),
        Err(_) => false,
    }
}

/// Relies on `fs_err::symlink_metadata`: whether anything (including a
/// dangling symbolic link) occupies `path`, without following links.
#[verifier::external_body]
pub(crate) fn fs_symlink_exists(path: &String) -> (r: bool) {
    fs_err::symlink_metadata(path.as_str()).is_ok()
}

/// Relies on `fs_err::os::unix::fs::symlink`: creates a symbolic link at
/// `link` pointing at `target`, through the unix symlink primitive. The
/// target need not exist: a dangling link is not an error at creation
/// time.
#[verifier::external_body]
pub(crate) fn fs_make_symlink(target: &String, link: &String) -> (r: Result<(), String>) {
    fs_err::os::unix::fs::symlink(target.as_str(), link.as_str()).map_err(|e| e.to_string())
}

} // verus!
