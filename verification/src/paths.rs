//! Derivation of the application's filesystem layout.
//!
//! Paths are modelled as strings joined with `'/'`.  The base directory
//! (the per-user application-data location) is handed in by the caller;
//! everything below it is computed, and specified, here.

use vstd::prelude::*;
use crate::errors::TerminalError;
use crate::platform::Os;
use crate::text::eq_str;

verus! {

/// The application-data directory under the platform base directory:
/// the data directory joined with `HaxRS` on Windows, the home directory
/// joined with `.haxrs` elsewhere.  `None` when the base is unknown.
pub fn get_data_dir(os: Os, base: Option<&str>) -> (r: Option<String>)
    ensures
        r is Some <==> base is Some,
        os == Os::Windows ==> (base matches Some(b) ==> (r matches Some(d) && d@ == b@ + "/HaxRS"@)),
        os == Os::Linux ==> (base matches Some(b) ==> (r matches Some(d) && d@ == b@ + "/.haxrs"@)),
{
    match base {
        None => None,
        Some(b) => match os {
            Os::Windows => Some(String::from_str(b).concat("/HaxRS")),
            Os::Linux => Some(String::from_str(b).concat("/.haxrs")),
        },
    }
}

/// The server directory holding helper binaries and tunnel logs, below the
/// application-data directory.
pub fn get_server_dir(data_dir: Option<&str>) -> (r: Option<String>)
    ensures
        r is Some <==> data_dir is Some,
        data_dir matches Some(d) ==> (r matches Some(s) && s@ == d@ + "/zphisher/.server"@),
{
    match data_dir {
        None => None,
        Some(d) => Some(String::from_str(d).concat("/zphisher/.server")),
    }
}

/// The directory of served site assets, below the server directory.
pub fn get_sites_dir(data_dir: Option<&str>) -> (r: Option<String>)
    ensures
        r is Some <==> data_dir is Some,
        data_dir matches Some(d) ==> (r matches Some(s) && s@ == d@ + "/zphisher/.server/sites"@),
{
    match data_dir {
        None => None,
        Some(d) => Some(String::from_str(d).concat("/zphisher/.server/sites")),
    }
}

/// The directory holding one selected site's assets.
pub fn site_dir(sites_dir: &str, site_key: &str) -> (r: String)
    ensures
        r@ == sites_dir@ + "/"@ + site_key@,
{
    String::from_str(sites_dir).concat("/").concat(site_key)
}

/// The directories to create and the stale files to remove before a run.
#[derive(Debug)]
pub struct SetupPlan {
    /// Directories created if missing, in order.
    pub create_dirs: Vec<String>,
    /// Leftover files from a previous run, removed if present.
    pub remove_files: Vec<String>,
}

/// Plans the startup filesystem preparation below the application-data
/// directory: the server, capture and served-page directories are created,
/// and tunnel state files of an earlier run are removed.  An unknown data
/// directory is a fatal precondition failure.
pub fn setup_directories(data_dir: Option<&str>) -> (r: Result<SetupPlan, TerminalError>)
    ensures
        r is Ok <==> data_dir is Some,
        data_dir matches Some(d) ==> (r matches Ok(p) && {
            &&& p.create_dirs@.len() == 3
            &&& p.create_dirs@[0]@ == d@ + "/zphisher/.server"@
            &&& p.create_dirs@[1]@ == d@ + "/zphisher/auth"@
            &&& p.create_dirs@[2]@ == d@ + "/zphisher/.server/www"@
            &&& p.remove_files@.len() == 2
            &&& p.remove_files@[0]@ == d@ + "/zphisher/.server/.loclx"@
            &&& p.remove_files@[1]@ == d@ + "/zphisher/.server/.cld.log"@
        }),
{
    match data_dir {
        None => Err(TerminalError::new("Failed to get home directory")),
        Some(d) => {
            let mut create_dirs: Vec<String> = Vec::new();
            create_dirs.push(String::from_str(d).concat("/zphisher/.server"));
            create_dirs.push(String::from_str(d).concat("/zphisher/auth"));
            create_dirs.push(String::from_str(d).concat("/zphisher/.server/www"));
            let mut remove_files: Vec<String> = Vec::new();
            remove_files.push(String::from_str(d).concat("/zphisher/.server/.loclx"));
            remove_files.push(String::from_str(d).concat("/zphisher/.server/.cld.log"));
            Ok(SetupPlan { create_dirs, remove_files })
        },
    }
}

/// `files` holds a string whose characters are `name`.
pub open spec fn has_name(files: Seq<String>, name: Seq<char>) -> bool {
    exists|i: int| 0 <= i < files.len() && files[i]@ == name
}

/// Whether `v` holds a string equal to `name`.
fn vec_has(v: &Vec<String>, name: &str) -> (r: bool)
    ensures
        r == has_name(v@, name@),
{
    let mut i: usize = 0;
    while i < v.len()
        invariant
            0 <= i <= v@.len(),
            forall|k: int| 0 <= k < i ==> v@[k]@ != name@,
        decreases v@.len() - i,
    {
        if eq_str(v[i].as_str(), name) {
            return true;
        }
        i = i + 1;
    }
    false
}

/// The full set of helper binaries required on `os`, as it would be probed
/// in the binary directory: the tunnel clients for either supported build.
pub open spec fn spec_files_exist(files: Seq<String>, os: Os) -> bool {
    match os {
        Os::Windows => (has_name(files, "loclx.exe"@) && has_name(
            files,
            "cloudflared-windows-amd64.exe"@,
        )) || (has_name(files, "loclx.exe"@) && has_name(files, "cloudflared-windows-386.exe"@)),
        Os::Linux => (has_name(files, "loclx"@) && has_name(files, "cloudflared-linux-amd64"@)) || (
        has_name(files, "loclx"@) && has_name(files, "cloudflared-linux-386"@)),
    }
}

/// Whether the required helper binaries are all present, given the file
/// names found in the binary directory.
pub fn files_exist(present: &Vec<String>, os: Os) -> (r: bool)
    ensures
        r == spec_files_exist(present@, os),
{
    match os {
        Os::Windows => {
            let loclx = vec_has(present, "loclx.exe");
            (loclx && vec_has(present, "cloudflared-windows-amd64.exe")) || (loclx && vec_has(
                present,
                "cloudflared-windows-386.exe",
            ))
        },
        Os::Linux => {
            let loclx = vec_has(present, "loclx");
            (loclx && vec_has(present, "cloudflared-linux-amd64")) || (loclx && vec_has(
                present,
                "cloudflared-linux-386",
            ))
        },
    }
}

} // verus!
