//! Verified core of a bridge between macOS FSKit and user-space file systems:
//! reading an extension's `Info.plist`, reading PlugInKit's registrations, and
//! the decision procedures that install, activate, uninstall, mount and start
//! a session. Each procedure asks its driver for outside work (`Effect`) and
//! decides on the answers (`Event`).

pub mod text;
pub mod info;
pub mod paths;
pub mod pattern;
pub mod command;
pub mod installer;
pub mod registration;
pub mod mounter;
pub mod session;

use vstd::prelude::*;
use crate::command::Step;
use crate::installer::{Activator, Installer, Uninstaller, activate_start, install_start, opt_text, uninstall_start};
use crate::session::{Session, SessionStarter, start_start};

verus! {

/// The bundle identifier of the FSKit extension used by default.
pub const FSKIT_ID: &'static str = "network.debox.fskitbridge.fskitext";

/// The mount point used by default.
pub const DEFAULT_MOUNT_POINT: &'static str = "/tmp/fskitbridge";

/// An error that a file system reports to the kernel.
#[derive(Debug, PartialEq, Eq)]
pub enum Error {
    /// A POSIX error number.
    Posix(i32),
}

/// Configuration for mounting the file system and connecting `FSKitExt` with
/// the bridge: the bundle identifier of the FSKit extension, the existing
/// directory to mount onto, and whether whatever is mounted there is
/// unmounted first.
#[derive(Debug)]
pub struct MountOptions {
    pub fskit_id: String,
    pub mount_point: String,
    pub force: bool,
}

impl Clone for MountOptions {
    fn clone(&self) -> (r: Self)
        ensures
            r.fskit_id@ == self.fskit_id@,
            r.mount_point@ == self.mount_point@,
            r.force == self.force,
    {
        MountOptions {
            fskit_id: self.fskit_id.clone(),
            mount_point: self.mount_point.clone(),
            force: self.force,
        }
    }
}

impl Default for MountOptions {
    /// The default extension `network.debox.fskitbridge.fskitext`, mounted at
    /// `/tmp/fskitbridge`, forcing.
    fn default() -> (r: Self)
        ensures
            r.fskit_id@ == FSKIT_ID@,
            r.mount_point@ == DEFAULT_MOUNT_POINT@,
            r.force,
    {
        MountOptions {
            fskit_id: FSKIT_ID.to_owned(),
            mount_point: DEFAULT_MOUNT_POINT.to_owned(),
            force: true,
        }
    }
}

/// Starts mounting a user-space file system as `opts` says: reading the
/// elected extension's configuration, serving its socket and mounting the
/// volume. Drive the returned procedure with `SessionStarter::step`.
pub fn mount(opts: &MountOptions) -> (r: (SessionStarter, Step<Session, session::Error>))
    ensures
        r.0@ == start_start(opts.fskit_id@, opts.mount_point@, opts.force).0,
        r.1@ == start_start(opts.fskit_id@, opts.mount_point@, opts.force).1,
{
    SessionStarter::start(opts.fskit_id.as_str(), opts.mount_point.as_str(), opts.force)
}

/// Starts installing the FSKit host application at `source` into
/// `/Applications/<source app name>` and activating it. Drive the returned
/// procedure with `Installer::step`.
pub fn install(source: &str) -> (r: (Installer, Step<(), installer::Error>))
    ensures
        r.0@ == install_start(source@).0,
        r.1@ == install_start(source@).1,
{
    Installer::start(source)
}

/// Starts activating the installed FSKit host application
/// `/Applications/<app_name>`. Drive the returned procedure with
/// `Activator::step`.
pub fn activate(app_name: &str) -> (r: (Activator, Step<(), installer::Error>))
    ensures
        r.0@ == activate_start(app_name@).0,
        r.1@ == activate_start(app_name@).1,
{
    Activator::start(app_name)
}

/// Starts uninstalling the FSKit host application `/Applications/<app_name>`;
/// `home` is the user's home directory where it is known. Drive the returned
/// procedure with `Uninstaller::step`.
pub fn uninstall(app_name: &str, home: Option<String>) -> (r: (Uninstaller, Step<(), installer::Error>))
    ensures
        r.0@ == uninstall_start(app_name@, opt_text(home)).0,
        r.1@ == uninstall_start(app_name@, opt_text(home)).1,
{
    Uninstaller::start(app_name, home)
}

} // verus!
