use forge::error::ForgeError;
use forge::system::{join_path, CommandLine, SystemCommand};

#[test]
fn command_with_slash_is_used_as_given() {
    let r = SystemCommand::resolve_command("/usr/bin/apt", false, &[true; 6]);
    assert_eq!(r, "/usr/bin/apt");
    let r = SystemCommand::resolve_command("./run", false, &[]);
    assert_eq!(r, "./run");
}

#[test]
fn command_on_path_is_used_as_given() {
    assert_eq!(SystemCommand::resolve_command("useradd", true, &[true; 6]), "useradd");
}

#[test]
fn first_present_candidate_wins() {
    let present = [false, true, false, false, true, false];
    assert_eq!(SystemCommand::resolve_command("useradd", false, &present), "/usr/sbin/useradd");
    let present = [false, false, false, false, false, true];
    assert_eq!(SystemCommand::resolve_command("ls", false, &present), "/bin/ls");
    assert_eq!(SystemCommand::resolve_command("nope", false, &[false; 6]), "nope");
    assert_eq!(SystemCommand::resolve_command("nope", false, &[]), "nope");
}

#[test]
fn search_candidates_in_order() {
    let c = SystemCommand::search_candidates("nginx");
    assert_eq!(
        c,
        vec![
            "/usr/local/sbin/nginx",
            "/usr/sbin/nginx",
            "/sbin/nginx",
            "/usr/local/bin/nginx",
            "/usr/bin/nginx",
            "/bin/nginx"
        ]
    );
}

#[test]
fn hint_only_when_resolved_differs() {
    assert_eq!(SystemCommand::resolved_hint("apt", "apt"), "");
    assert_eq!(
        SystemCommand::resolved_hint("useradd", "/usr/sbin/useradd"),
        " (resolved to: /usr/sbin/useradd)"
    );
}

#[test]
fn messages_around_a_run() {
    let args = vec!["-R".to_string(), "a:a".to_string(), "/x".to_string()];
    assert_eq!(SystemCommand::running_message("chown", &args), "Running: chown -R a:a /x");
    assert_eq!(
        SystemCommand::launch_failure_message("chown", &args, "/bin/chown"),
        "Failed to execute: chown -R a:a /x (resolved to: /bin/chown)"
    );
    assert_eq!(
        SystemCommand::launch_failure_message("id", &vec!["-u".to_string()], "id"),
        "Failed to execute: id -u"
    );
    assert_eq!(SystemCommand::running_message("true", &Vec::new()), "Running: true ");
}

#[test]
fn command_status_verdict() {
    let args = vec!["install".to_string(), "-y".to_string()];
    assert_eq!(SystemCommand::check_status("apt", &args, true), Ok(()));
    let e = SystemCommand::check_status("apt", &args, false).unwrap_err();
    assert_eq!(e.message(), "Command failed: apt install -y");
}

#[test]
fn root_check_reads_trimmed_uid() {
    assert_eq!(SystemCommand::check_root(b"0\n"), Ok(()));
    assert_eq!(SystemCommand::check_root(b"  0  "), Ok(()));
    assert_eq!(SystemCommand::check_root(b"1000\n"), Err(ForgeError::NotRoot));
    assert_eq!(SystemCommand::check_root(b"00"), Err(ForgeError::NotRoot));
    assert_eq!(SystemCommand::check_root(b""), Err(ForgeError::NotRoot));
    assert_eq!(SystemCommand::check_root(&[0xff, b'0']), Err(ForgeError::NotRoot));
    assert_eq!(
        ForgeError::NotRoot.message(),
        "This command requires root privileges. Run with sudo."
    );
}

#[test]
fn linux_check() {
    assert_eq!(SystemCommand::check_linux(true, "linux"), Ok(()));
    let e = SystemCommand::check_linux(false, "macos").unwrap_err();
    assert_eq!(
        e.message(),
        "This tool only works on Linux systems.\nCurrent OS: macos\nPlease run this on an Ubuntu/Debian server."
    );
}

#[test]
fn path_join_rules() {
    assert_eq!(join_path("/usr/bin", "ls"), "/usr/bin/ls");
    assert_eq!(join_path("/usr/bin/", "ls"), "/usr/bin/ls");
    assert_eq!(join_path("", "ls"), "ls");
    assert_eq!(join_path("/usr/bin", "/bin/ls"), "/bin/ls");
    assert_eq!(join_path("/usr/bin", ""), "/usr/bin/");
}

#[test]
fn command_line_builder() {
    let mut c = CommandLine::new("systemctl");
    c.arg("start");
    assert_eq!(c.program, "systemctl");
    assert_eq!(c.args, vec!["start"]);
    assert_eq!(c.stdin, None);
    c.input("text".to_string());
    assert_eq!(c.stdin.as_deref(), Some("text"));
}
