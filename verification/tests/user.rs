use forge::error::{ForgeError, PatternKind};
use forge::user::{DeployUser, SshKeyUpdate};

#[test]
fn validate_username_accepts_common_linux_names() {
    assert!(DeployUser::validate_username("deploy").is_ok());
    assert!(DeployUser::validate_username("web_user-1").is_ok());
}

#[test]
fn validate_username_rejects_invalid_values() {
    assert!(DeployUser::validate_username("-bad").is_err());
    assert!(DeployUser::validate_username("BadUpper").is_err());
    assert!(DeployUser::validate_username("name with space").is_err());
}

#[test]
fn validate_username_covers_boundary_cases() {
    assert!(DeployUser::validate_username("").is_err());

    let username_32 = format!("a{}", "b".repeat(31));
    let username_33 = format!("a{}", "b".repeat(32));
    assert_eq!(username_32.len(), 32);
    assert_eq!(username_33.len(), 33);
    assert!(DeployUser::validate_username(&username_32).is_ok());
    assert!(DeployUser::validate_username(&username_33).is_err());
    assert!(DeployUser::validate_username("_apt").is_ok());
}

#[test]
fn invalid_username_error_carries_the_name_and_message() {
    let err = DeployUser::validate_username("Root").unwrap_err();
    assert_eq!(err, ForgeError::InvalidUsername { name: "Root".to_string() });
    assert_eq!(
        err.message(),
        "Invalid user name 'Root'. Use lowercase letters, numbers, '_' or '-', start with letter/_ and max 32 chars"
    );
}

#[test]
fn username_pattern_is_anchored_at_both_ends() {
    assert!(DeployUser::validate_username("deploy\n").is_err());
    assert!(DeployUser::validate_username("x deploy").is_err());
    assert!(DeployUser::validate_username("a-").is_ok());
    assert!(DeployUser::validate_username("9lives").is_err());
}

const KEY: &str = "ssh-ed25519 AAAAC3NzaC1lZDI1NTE5AAAAIKx+/abc= user@host";

#[test]
fn ssh_key_is_appended_to_empty_file() {
    let r = DeployUser::add_ssh_key(KEY, "").unwrap();
    assert_eq!(r, SshKeyUpdate::Updated { content: format!("{}\n", KEY) });
}

#[test]
fn ssh_key_append_adds_missing_newline_first() {
    let r = DeployUser::add_ssh_key(KEY, "ssh-rsa AAAA old").unwrap();
    assert_eq!(r, SshKeyUpdate::Updated { content: format!("ssh-rsa AAAA old\n{}\n", KEY) });
    let r = DeployUser::add_ssh_key(KEY, "ssh-rsa AAAA old\n").unwrap();
    assert_eq!(r, SshKeyUpdate::Updated { content: format!("ssh-rsa AAAA old\n{}\n", KEY) });
}

#[test]
fn ssh_key_is_trimmed_before_use() {
    let padded = format!("  {}\t\n", KEY);
    let r = DeployUser::add_ssh_key(&padded, "").unwrap();
    assert_eq!(r, SshKeyUpdate::Updated { content: format!("{}\n", KEY) });
}

#[test]
fn ssh_key_already_present_is_found_on_trimmed_crlf_lines() {
    let content = format!("ssh-rsa AAAA other\r\n   {}  \r\nlast", KEY);
    assert_eq!(DeployUser::add_ssh_key(KEY, &content).unwrap(), SshKeyUpdate::AlreadyPresent);
    let content = format!("first\n{}", KEY);
    assert_eq!(DeployUser::add_ssh_key(KEY, &content).unwrap(), SshKeyUpdate::AlreadyPresent);
}

#[test]
fn ssh_key_registration_is_idempotent() {
    let first = DeployUser::add_ssh_key(KEY, "ssh-rsa AAAA old").unwrap();
    let content = match first {
        SshKeyUpdate::Updated { content } => content,
        SshKeyUpdate::AlreadyPresent => panic!("key was not in the file"),
    };
    assert_eq!(DeployUser::add_ssh_key(KEY, &content).unwrap(), SshKeyUpdate::AlreadyPresent);
}

#[test]
fn ssh_key_with_inner_line_break_is_rejected() {
    let key = "ssh-ed25519 AAAA\nssh-rsa BBBB";
    assert_eq!(DeployUser::add_ssh_key(key, "").unwrap_err(), ForgeError::SshKeyMultiline);
    let key = "ssh-ed25519 AAAA\rcomment";
    assert_eq!(DeployUser::add_ssh_key(key, "").unwrap_err(), ForgeError::SshKeyMultiline);
}

#[test]
fn ssh_key_of_unknown_type_is_rejected() {
    assert_eq!(DeployUser::add_ssh_key("ssh-dss AAAA", "").unwrap_err(), ForgeError::SshKeyFormat);
    assert_eq!(DeployUser::add_ssh_key("ssh-rsa", "").unwrap_err(), ForgeError::SshKeyFormat);
    assert_eq!(DeployUser::add_ssh_key("", "").unwrap_err(), ForgeError::SshKeyFormat);
    assert!(DeployUser::add_ssh_key("ecdsa-sha2-nistp384 AAAA==", "").is_ok());
    assert_eq!(
        DeployUser::add_ssh_key("ecdsa-sha2-nistp999 AAAA", "").unwrap_err(),
        ForgeError::SshKeyFormat
    );
}

#[test]
fn pattern_error_messages() {
    let e = ForgeError::PatternRejected { pattern: PatternKind::SshKey };
    assert_eq!(e.message(), "ssh key regex must be valid");
}

#[test]
fn home_dir_is_sixth_passwd_field() {
    let out = b"deploy:x:1001:1001:Deploy,,,:/home/deploy:/bin/bash\n".to_vec();
    assert_eq!(DeployUser::find_home_dir("deploy", true, out).unwrap(), "/home/deploy");
}

#[test]
fn home_dir_missing_or_empty_is_an_error() {
    let out = b"deploy:x:1001:1001:Deploy:\n".to_vec();
    assert_eq!(DeployUser::find_home_dir("deploy", true, out).unwrap_err(), ForgeError::MissingHomeDir);
    let out = b"deploy:x:1001".to_vec();
    assert_eq!(DeployUser::find_home_dir("deploy", true, out).unwrap_err(), ForgeError::MissingHomeDir);
    assert_eq!(
        DeployUser::find_home_dir("deploy", true, Vec::new()).unwrap_err(),
        ForgeError::MissingHomeDir
    );
}

#[test]
fn home_dir_lookup_failures() {
    let e = DeployUser::find_home_dir("ghost", false, Vec::new()).unwrap_err();
    assert_eq!(e, ForgeError::HomeDirLookupFailed { user: "ghost".to_string() });
    assert_eq!(e.message(), "Failed to resolve home directory for user 'ghost'");
    let e = DeployUser::find_home_dir("x", true, vec![0xff, 0xfe, b':']).unwrap_err();
    assert_eq!(e, ForgeError::PasswdNotUtf8);
}

#[test]
fn ssh_paths_follow_path_join() {
    assert_eq!(DeployUser::ssh_dir("/home/deploy"), "/home/deploy/.ssh");
    assert_eq!(DeployUser::ssh_dir("/"), "/.ssh");
    assert_eq!(DeployUser::authorized_keys_path("/home/d/"), "/home/d/.ssh/authorized_keys");
}

#[test]
fn user_commands() {
    let cmds = DeployUser::creation_commands("deploy");
    assert_eq!(cmds.len(), 2);
    assert_eq!(cmds[0].program, "useradd");
    assert_eq!(cmds[0].args, vec!["-m", "-s", "/bin/bash", "deploy"]);
    assert_eq!(cmds[0].stdin, None);
    assert_eq!(cmds[1].program, "chpasswd");
    assert!(cmds[1].args.is_empty());
    assert_eq!(cmds[1].stdin.as_deref(), Some("deploy:deploy123\n"));
    assert_eq!(DeployUser::initial_password("web"), "web123");
    let cmds = DeployUser::ssh_permission_commands("deploy", "/h/.ssh", "/h/.ssh/authorized_keys");
    assert_eq!(cmds[0].args, vec!["700", "/h/.ssh"]);
    assert_eq!(cmds[1].args, vec!["600", "/h/.ssh/authorized_keys"]);
    assert_eq!(cmds[2].program, "chown");
    assert_eq!(cmds[2].args, vec!["-R", "deploy:deploy", "/h/.ssh"]);
    assert_eq!(DeployUser::owner_spec("web"), "web:web");
}

#[test]
fn username_verdict_on_engine_answers() {
    assert_eq!(DeployUser::username_verdict("x", Some(true)), Ok(()));
    assert_eq!(
        DeployUser::username_verdict("x", Some(false)),
        Err(ForgeError::InvalidUsername { name: "x".to_string() })
    );
    assert_eq!(
        DeployUser::username_verdict("x", None),
        Err(ForgeError::PatternRejected { pattern: PatternKind::Username })
    );
}

#[test]
fn record_ssh_key_on_engine_answers() {
    assert_eq!(
        DeployUser::record_ssh_key("k", "", None),
        Err(ForgeError::PatternRejected { pattern: PatternKind::SshKey })
    );
    assert_eq!(DeployUser::record_ssh_key("k", "", Some(false)), Err(ForgeError::SshKeyFormat));
    assert_eq!(
        DeployUser::record_ssh_key("k", "a", Some(true)),
        Ok(SshKeyUpdate::Updated { content: "a\nk\n".to_string() })
    );
    assert_eq!(DeployUser::record_ssh_key("k", "a\n k \n", Some(true)), Ok(SshKeyUpdate::AlreadyPresent));
}

#[test]
fn missing_key_notice_matches_readme() {
    assert_eq!(DeployUser::no_ssh_key_notice(), "⚠ No SSH key provided - you can add it later");
}

#[test]
fn create_skips_an_existing_user() {
    let plan = DeployUser::create("deploy", true);
    assert!(plan.commands.is_empty());
    assert_eq!(plan.notice, "✓ User 'deploy' already exists");
    let plan = DeployUser::create("deploy", false);
    assert_eq!(plan.commands.len(), 2);
    assert_eq!(plan.commands[0].program, "useradd");
    assert_eq!(plan.commands[1].program, "chpasswd");
    assert_eq!(plan.notice, "✓ Created user 'deploy'");
}

#[test]
fn ssh_key_forms_accepted_by_the_pattern() {
    for key in [
        "ssh-rsa AAAA",
        "ssh-ed25519 AAAA+/09===",
        "ecdsa-sha2-nistp521 A= comment with spaces",
        "ssh-rsa AAAA  two spaces before comment",
    ] {
        assert!(DeployUser::add_ssh_key(key, "").is_ok(), "{}", key);
    }
    for key in ["ssh-rsa AAAA====", "ssh-rsa =", "ssh-rsa  AAAA", "ssh-rsaAAAA", "SSH-RSA AAAA"] {
        assert_eq!(DeployUser::add_ssh_key(key, "").unwrap_err(), ForgeError::SshKeyFormat, "{}", key);
    }
}
