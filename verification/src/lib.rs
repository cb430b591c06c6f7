//! The service core of a VPN client: where its helper executables live, how
//! the interactive authenticator is launched, and the rules by which the
//! privileged daemon starts, runs and stops.
//!
//! Everything here is free of I/O. A host program reads files, waits for
//! signals and spawns processes; it hands plain values to these functions
//! and carries out what they return.

use vstd::prelude::*;
use vstd::string::*;

pub mod auth;
pub mod command_queue;
pub mod credential;
pub mod lifecycle;
pub mod process;
pub mod service;
pub mod signals;
pub mod state_channel;
pub mod utils;
pub mod vpn_task;
pub mod ws_server;

verus! {

/// The user agent the client presents to portals and gateways.
pub const GP_USER_AGENT: &'static str = "PAN GlobalProtect";

/// Where the daemon records the process id of the running instance.
pub const GP_SERVICE_LOCK_FILE: &'static str = "/var/run/gpservice.lock";

/// The file, in the user's runtime directory, that holds the callback port.
pub const GP_CALLBACK_PORT_FILENAME: &'static str = "gpcallback.port";

/// The directory in which a helper executable is expected when the search
/// path does not hold it.
pub const DEFAULT_BINARY_DIR: &'static str = "/usr/bin";

/// The directory that takes the place of [`DEFAULT_BINARY_DIR`] on macOS.
pub const HOMEBREW_BINARY_DIR: &'static str = "/opt/homebrew/bin";

/// `name` placed in `dir`, as a path: an absolute `name` stands for itself,
/// any other is appended to `dir` behind one separator.
pub open spec fn joined_path(dir: Seq<char>, name: Seq<char>) -> Seq<char> {
    if name.len() > 0 && name[0] == '/' {
        name
    } else if dir.len() > 0 && dir.last() != '/' {
        dir + seq!['/'] + name
    } else {
        dir + name
    }
}

/// The path of a helper executable, given what the search of the
/// executable path came back with: the place found, or else the name
/// placed in `dir`.
pub open spec fn resolved_binary_path(
    found: Option<Seq<char>>,
    dir: Seq<char>,
    name: Seq<char>,
) -> Seq<char> {
    match found {
        Some(path) => path,
        None => joined_path(dir, name),
    }
}

/// Searches the executable search path for `binary_name` with
/// `which::which`. The outcome depends on the environment and on what is on
/// disk, so nothing is claimed of it: `Some` holds the path that the search
/// reported, `None` stands for every way in which it reported none.
#[verifier::external_body]
fn find_in_search_path(binary_name: &str) -> (found: Option<String>) {
    match which::which(binary_name) {
        Ok(path) => Some(path.to_string_lossy().into_owned()),
        Err(_) => None,
    }
}

/// Places `name` in `dir`.
pub fn join_path(dir: &str, name: &str) -> (path: String)
    ensures
        path@ == joined_path(dir@, name@),
{
    let name_len = name.unicode_len();
    if name_len > 0 && name.get_char(0) == '/' {
        return name.to_owned();
    }
    let dir_len = dir.unicode_len();
    let mut path = dir.to_owned();
    if dir_len > 0 && dir.get_char(dir_len - 1) != '/' {
        path.append("/");
        proof {
            reveal_strlit("/");
            assert("/"@ =~= seq!['/']);
        }
    }
    path.append(name);
    path
}

/// Decides the path of a helper executable once the search path has been
/// consulted: what the search found wins, and without it the executable is
/// taken to be in `dir`.
pub fn resolve_binary_path(found: Option<String>, dir: &str, binary_name: &str) -> (path: String)
    ensures
        path@ == resolved_binary_path(found.deep_view(), dir@, binary_name@),
{
    match found {
        Some(path) => path,
        None => join_path(dir, binary_name),
    }
}

/// The path of the executable `binary_name`: its place on the executable
/// search path if it has one there, else its place in `dir`. Which of the
/// two comes back depends on the machine; [`resolve_binary_path`] states
/// the rule for either outcome.
pub fn get_binary_path_in(binary_name: &str, dir: &str) -> String {
    let found = find_in_search_path(binary_name);
    resolve_binary_path(found, dir, binary_name)
}

/// The path of the executable `binary_name`, with [`DEFAULT_BINARY_DIR`] as
/// the place to fall back on.
pub fn get_binary_path(binary_name: &str) -> String {
    get_binary_path_in(binary_name, DEFAULT_BINARY_DIR)
}

/// The path of the command-line client.
pub fn get_client_binary() -> String {
    get_binary_path("gpclient")
}

/// The path of the service daemon.
pub fn get_service_binary() -> String {
    get_binary_path("gpservice")
}

/// The path of the interactive authenticator.
pub fn get_auth_binary() -> String {
    get_binary_path("gpauth")
}

} // verus!
