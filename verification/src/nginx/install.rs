//! The commands that install, enable, start and check nginx.

use vstd::prelude::*;
use crate::system::CommandLine;

verus! {

/// Refreshes the package index quietly, then installs nginx non-interactively.
pub fn install() -> (v: Vec<CommandLine>)
    ensures
        v@.len() == 2,
        v@[0]@ == ("apt"@, seq!["update"@, "-qq"@], None::<Seq<char>>),
        v@[1]@ == ("apt"@, seq!["install"@, "-y"@, "-qq"@, "nginx"@], None::<Seq<char>>),
{
    let mut update = CommandLine::new("apt");
    update.arg("update");
    update.arg("-qq");
    let mut add = CommandLine::new("apt");
    add.arg("install");
    add.arg("-y");
    add.arg("-qq");
    add.arg("nginx");
    let mut v = Vec::new();
    v.push(update);
    v.push(add);
    v
}

/// Enables nginx at boot, then starts it.
pub fn enable_and_start() -> (v: Vec<CommandLine>)
    ensures
        v@.len() == 2,
        v@[0]@ == ("systemctl"@, seq!["enable"@, "nginx"@], None::<Seq<char>>),
        v@[1]@ == ("systemctl"@, seq!["start"@, "nginx"@], None::<Seq<char>>),
{
    let mut enable = CommandLine::new("systemctl");
    enable.arg("enable");
    enable.arg("nginx");
    let mut start = CommandLine::new("systemctl");
    start.arg("start");
    start.arg("nginx");
    let mut v = Vec::new();
    v.push(enable);
    v.push(start);
    v
}

/// Removes the distribution's default site; its outcome is ignored.
pub fn remove_default_site() -> (c: CommandLine)
    ensures
        c@ == ("rm"@, seq!["-f"@, "/etc/nginx/sites-enabled/default"@], None::<Seq<char>>),
{
    let mut c = CommandLine::new("rm");
    c.arg("-f");
    c.arg("/etc/nginx/sites-enabled/default");
    c
}

/// Asks nginx to check its configuration.
pub fn test_config() -> (c: CommandLine)
    ensures
        c@ == ("nginx"@, seq!["-t"@], None::<Seq<char>>),
{
    let mut c = CommandLine::new("nginx");
    c.arg("-t");
    c
}

} // verus!
