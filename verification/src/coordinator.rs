//! Where the lock and the sync marker lie, and what is written to them.
//!
//! Instances of the program on one host agree on two files in the user's
//! runtime directory. The lock file holds the process id of the instance
//! that is checking. The sync marker holds the time of the last check; an
//! instance that sees it change knows that another instance has checked.

use vstd::prelude::*;
use crate::text::{decimal, push_decimal};

verus! {

/// The directory to fall back on where no runtime directory is set.
pub open spec fn fallback_dir() -> Seq<char> {
    "/tmp"@
}

/// The name of the lock file.
pub open spec fn lock_name() -> Seq<char> {
    "cosmic-package-updater.lock"@
}

/// The name of the sync marker.
pub open spec fn sync_name() -> Seq<char> {
    "cosmic-package-updater.sync"@
}

/// The path of `file` in `dir`: a separator is put between them unless
/// `dir` is empty or ends with one.
pub open spec fn joined(dir: Seq<char>, file: Seq<char>) -> Seq<char> {
    if dir.len() == 0 || dir.last() == '/' {
        dir + file
    } else {
        dir.push('/') + file
    }
}

/// The directory that holds the two files.
pub open spec fn runtime_dir(setting: Option<Seq<char>>) -> Seq<char> {
    match setting {
        Some(dir) => dir,
        None => fallback_dir(),
    }
}

/// The view of an optional string.
pub open spec fn setting_of(s: Option<&str>) -> Option<Seq<char>> {
    match s {
        Some(t) => Some(t@),
        None => None,
    }
}

/// What a file holds that records `n`: the number in decimal and a line
/// feed.
pub open spec fn number_line(n: nat) -> Seq<char> {
    decimal(n).push('\n')
}

/// The path of `file` in the runtime directory.
fn path_in(runtime_dir_setting: Option<&str>, file: &str) -> (r: String)
    ensures
        r@ == joined(runtime_dir(setting_of(runtime_dir_setting)), file@),
{
    let mut path = match runtime_dir_setting {
        Some(dir) => dir.to_owned(),
        None => "/tmp".to_owned(),
    };
    let n = path.as_str().unicode_len();
    if n > 0 && path.as_str().get_char(n - 1) != '/' {
        path.push('/');
    }
    path.append(file);
    path
}

/// The path of the lock file, given the runtime directory that the
/// environment names, if it names one.
pub fn get_lock_path(runtime_dir_setting: Option<&str>) -> (r: String)
    ensures
        r@ == joined(runtime_dir(setting_of(runtime_dir_setting)), lock_name()),
{
    path_in(runtime_dir_setting, "cosmic-package-updater.lock")
}

/// The path of the sync marker, given the runtime directory that the
/// environment names, if it names one.
pub fn get_sync_path(runtime_dir_setting: Option<&str>) -> (r: String)
    ensures
        r@ == joined(runtime_dir(setting_of(runtime_dir_setting)), sync_name()),
{
    path_in(runtime_dir_setting, "cosmic-package-updater.sync")
}

/// What the lock file holds while the process `pid` has the lock.
pub fn lock_contents(pid: u32) -> (r: String)
    ensures
        r@ == number_line(pid as nat),
{
    let mut out = String::new();
    push_decimal(&mut out, pid as u64);
    out.push('\n');
    assert(out@ =~= number_line(pid as nat));
    out
}

/// What the sync marker holds after a check that ended `seconds` after the
/// Unix epoch.
pub fn sync_contents(seconds: u64) -> (r: String)
    ensures
        r@ == number_line(seconds as nat),
{
    let mut out = String::new();
    push_decimal(&mut out, seconds);
    out.push('\n');
    assert(out@ =~= number_line(seconds as nat));
    out
}

} // verus!
