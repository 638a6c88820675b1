use vstd::prelude::*;
use crate::config::Config;
use crate::paths::{expand_home_symbol, expand_tilde, home_or_root, join_path, joined, opt_view};

verus! {

/// What the parent process writes and how it exits after a delegated command.
#[derive(Debug)]
pub struct Passthrough {
    /// Written to standard output verbatim.
    pub stdout: String,
    /// Written to standard error verbatim.
    pub stderr: String,
    pub exit_code: i32,
}

/// The program to run for a delegated command, and the directory to run it in.
#[derive(Debug)]
pub struct Invocation {
    pub program: String,
    pub dir: String,
}

/// Where a configuration's devkit is installed, with `~` replaced by `home`.
pub open spec fn install_dir_of(config: Config, home: Option<Seq<char>>) -> Seq<char> {
    expand_tilde(config.yaci_devkit.path@, home_or_root(home))
}

/// The devkit's executable, run from its install directory.
pub fn delegate_invocation(config: &Config, home: Option<&str>) -> (r: Invocation)
    ensures
        r.dir@ == install_dir_of(*config, opt_view(home)),
        r.program@ == joined(install_dir_of(*config, opt_view(home)), "yaci-cli"@),
{
    let dir = expand_home_symbol(config.yaci_devkit.path.as_str(), home);
    let program = join_path(dir.as_str(), "yaci-cli");
    Invocation { program, dir }
}

/// The outcome of a delegated command that ran: on success its standard
/// output is passed on unchanged and the parent exits with 0; otherwise its
/// standard error is passed on and the parent exits with 1.
pub fn delegation_outcome(success: bool, stdout: &str, stderr: &str) -> (r: Passthrough)
    ensures
        success ==> r.stdout@ == stdout@ && r.stderr@.len() == 0 && r.exit_code == 0,
        !success ==> r.stdout@.len() == 0 && r.stderr@ == stderr@ && r.exit_code == 1,
{
    if success {
        Passthrough { stdout: String::from_str(stdout), stderr: String::new(), exit_code: 0 }
    } else {
        Passthrough { stdout: String::new(), stderr: String::from_str(stderr), exit_code: 1 }
    }
}

/// The outcome of a delegated command that could not be started: the reason
/// goes to standard error and the parent exits with 1.
pub fn spawn_failure(program: &str, reason: &str) -> (r: Passthrough)
    ensures
        r.stdout@.len() == 0,
        r.stderr@ == "Failed to execute "@ + program@ + ": "@ + reason@,
        r.exit_code == 1,
{
    let mut msg = String::from_str("Failed to execute ");
    msg.append(program);
    msg.append(": ");
    msg.append(reason);
    Passthrough { stdout: String::new(), stderr: msg, exit_code: 1 }
}

} // verus!
