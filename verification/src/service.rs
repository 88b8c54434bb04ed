//! What registering the program as a service of the user's session takes:
//! the service's name, the text of its unit file, and the reading of what
//! the service manager says about it.

use vstd::prelude::*;
use std::path::PathBuf;
use crate::error::{AppError, AppErrorView};
use crate::text::{contains, contains_text};

verus! {

/// The name of the service under systemd.
pub const SERVICE_NAME: &'static str = "acp";

/// The label of the service under launchd.
pub const LAUNCHD_LABEL: &'static str = "com.user.acp";

/// The unit file for systemd, up to the path of the program.
pub const SYSTEMD_UNIT_HEAD: &'static str = "[Unit]\n\
Description=Auto Captive Portal Login Service\n\
\n\
[Service]\n\
Environment=RUST_LOG=INFO\n\
ExecStart=";

/// The unit file for systemd, behind the path of the program.
pub const SYSTEMD_UNIT_TAIL: &'static str = "\n\
Restart=on-failure\n\
RestartSec=10\n\
\n\
[Install]\n\
WantedBy=default.target";

/// The property list for launchd, up to the label.
pub const LAUNCHD_PLIST_HEAD: &'static str = "<?xml version=\"1.0\" encoding=\"UTF-8\"?>\n\
<!DOCTYPE plist PUBLIC \"-//Apple//DTD PLIST 1.0//EN\" \
\"http://www.apple.com/DTDs/PropertyList-1.0.dtd\">\n\
<plist version=\"1.0\">\n\
<dict>\n    \
<key>Label</key>\n    \
<string>";

/// The property list for launchd, between the label and the path of the
/// program.
pub const LAUNCHD_PLIST_MIDDLE: &'static str = "</string>\n    \
<key>ProgramArguments</key>\n    \
<array>\n        \
<string>";

/// The property list for launchd, behind the path of the program.
pub const LAUNCHD_PLIST_TAIL: &'static str = "</string>\n    \
</array>\n    \
<key>EnvironmentVariables</key>\n    \
<dict>\n        \
<key>RUST_LOG</key>\n        \
<string>INFO</string>\n    \
</dict>\n    \
<key>RunAtLoad</key>\n    \
<true/>\n    \
<key>KeepAlive</key>\n    \
<true/>\n\
</dict>\n\
</plist>";

/// The unit file that has systemd run the program at `executable`.
pub open spec fn systemd_unit_text(executable: Seq<char>) -> Seq<char> {
    SYSTEMD_UNIT_HEAD@ + executable + SYSTEMD_UNIT_TAIL@
}

/// The property list that has launchd run the program at `executable`.
pub open spec fn launchd_plist_text(executable: Seq<char>) -> Seq<char> {
    LAUNCHD_PLIST_HEAD@ + LAUNCHD_LABEL@ + LAUNCHD_PLIST_MIDDLE@ + executable + LAUNCHD_PLIST_TAIL@
}

/// Writes the unit file that has systemd run the program at `executable`.
pub fn systemd_unit_for(executable: &str) -> (text: String)
    ensures
        text@ == systemd_unit_text(executable@),
{
    let mut text: String = SYSTEMD_UNIT_HEAD.to_owned();
    text.append(executable);
    text.append(SYSTEMD_UNIT_TAIL);
    text
}

/// Writes the property list that has launchd run the program at
/// `executable`.
pub fn launchd_plist_for(executable: &str) -> (text: String)
    ensures
        text@ == launchd_plist_text(executable@),
{
    let mut text: String = LAUNCHD_PLIST_HEAD.to_owned();
    text.append(LAUNCHD_LABEL);
    text.append(LAUNCHD_PLIST_MIDDLE);
    text.append(executable);
    text.append(LAUNCHD_PLIST_TAIL);
    text
}

/// `std::path::PathBuf`, a path in the file system. Nothing is claimed of
/// what it holds.
#[verifier::external_type_specification]
#[verifier::external_body]
pub struct ExPathBuf(PathBuf);

/// The path as text, by `Path::to_string_lossy`. Nothing is claimed of the
/// text: what is not Unicode in the path is replaced.
#[verifier::external_body]
fn path_text(path: &PathBuf) -> (text: String) {
    path.to_string_lossy().into_owned()
}

/// Installs the program as a service.
pub struct ServiceManager {
    executable_path: PathBuf,
}

impl ServiceManager {
    /// The path of the program that the service runs.
    pub closed spec fn path(&self) -> PathBuf {
        self.executable_path
    }

    pub fn new(executable_path: PathBuf) -> (manager: ServiceManager)
        ensures
            manager.path() == executable_path,
    {
        Self { executable_path }
    }

    /// The path of the program that the service runs.
    pub fn executable_path(&self) -> (path: &PathBuf)
        ensures
            *path == self.path(),
    {
        &self.executable_path
    }

    /// The unit file that has systemd run the program: the text of
    /// `systemd_unit_for` for the program's path as text.
    pub fn systemd_unit(&self) -> (text: String)
        ensures
            exists|executable: Seq<char>| text@ == systemd_unit_text(executable),
    {
        let executable: String = path_text(&self.executable_path);
        systemd_unit_for(executable.as_str())
    }

    /// The property list that has launchd run the program: the text of
    /// `launchd_plist_for` for the program's path as text.
    pub fn launchd_plist(&self) -> (text: String)
        ensures
            exists|executable: Seq<char>| text@ == launchd_plist_text(executable),
    {
        let executable: String = path_text(&self.executable_path);
        launchd_plist_for(executable.as_str())
    }
}

/// Whether the service runs, and the state to show, from what
/// `systemctl is-active` printed (`state`, without the white space around
/// it) and whether it ended well.
pub open spec fn systemd_reading(exit_ok: bool, state: Seq<char>) -> (bool, Seq<char>) {
    if exit_ok && state == "active"@ {
        (true, "Running"@)
    } else if !exit_ok && state.len() == 0 {
        (false, "Not Running"@)
    } else {
        (false, state)
    }
}

/// Reads what `systemctl is-active` said about the service.
pub fn systemd_status(exit_ok: bool, state: &str) -> (r: (bool, String))
    ensures
        (r.0, r.1@) == systemd_reading(exit_ok, state@),
{
    let state: String = state.to_owned();
    if exit_ok && state == "active".to_owned() {
        (true, "Running".to_owned())
    } else if !exit_ok && state.as_str().is_empty() {
        (false, "Not Running".to_owned())
    } else {
        (false, state)
    }
}

/// Whether the service runs, and the state to show, from what
/// `launchctl list` printed about it and whether it ended well: the
/// service runs where the listing names a process number other than 0.
pub open spec fn launchd_reading(exit_ok: bool, listing: Seq<char>) -> (bool, Seq<char>) {
    if exit_ok && contains_text(listing, "PID"@) && !contains_text(listing, "PID\" = 0"@) {
        (true, "Running"@)
    } else {
        (false, "Not Running"@)
    }
}

/// Reads what `launchctl list` said about the service.
pub fn launchd_status(exit_ok: bool, listing: &str) -> (r: (bool, String))
    ensures
        (r.0, r.1@) == launchd_reading(exit_ok, listing@),
{
    if exit_ok && contains(listing, "PID") && !contains(listing, "PID\" = 0") {
        (true, "Running".to_owned())
    } else {
        (false, "Not Running".to_owned())
    }
}

/// How a command to the service manager ended: well, or with what it
/// wrote to its error output.
pub fn command_outcome(exit_ok: bool, stderr: String) -> (r: crate::error::Result<()>)
    ensures
        match r {
            Ok(_) => exit_ok,
            Err(e) => !exit_ok && e@ == AppErrorView::Service(stderr@),
        },
{
    if exit_ok {
        Ok(())
    } else {
        Err(AppError::Service(stderr))
    }
}

} // verus!
