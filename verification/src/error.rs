//! The errors of the library and the messages shown to the user for them.

use vstd::prelude::*;
use crate::text::{join, join_strings, views};

verus! {

/// Which built-in regular expression was rejected by the regex engine.
#[derive(Debug, Clone, Copy, PartialEq, Eq, Structural)]
pub enum PatternKind {
    Username,
    SshKey,
}

#[derive(Debug, PartialEq, Eq)]
pub enum ForgeError {
    /// The project name is empty.
    EmptyProjectName,
    /// The project name is longer than 64 bytes.
    ProjectNameTooLong,
    /// The project name holds a character other than ASCII letters, digits, `-`, `_`.
    ProjectNameCharset,
    /// The site domain or IP is empty.
    EmptyServerName,
    /// The site domain or IP is longer than 253 bytes.
    ServerNameTooLong,
    /// The site domain or IP holds a character outside ASCII letters, digits and `.-_:*`.
    ServerNameCharset,
    /// The project root is empty.
    EmptyProjectRoot,
    /// The project root is longer than 512 bytes.
    ProjectRootTooLong,
    /// The project root holds a character outside ASCII letters, digits and `/.-_`.
    ProjectRootCharset,
    /// The project root is not an absolute path.
    ProjectRootNotAbsolute,
    /// The project root has a `..` component.
    ProjectRootDotSegment,
    /// The user name does not match the accepted form.
    InvalidUsername { name: String },
    /// A built-in regular expression was rejected by the regex engine.
    PatternRejected { pattern: PatternKind },
    /// The SSH key spans more than one line.
    SshKeyMultiline,
    /// The SSH key is not of an accepted type and form.
    SshKeyFormat,
    /// `getent passwd` failed for the user.
    HomeDirLookupFailed { user: String },
    /// The `getent passwd` output is not UTF-8.
    PasswdNotUtf8,
    /// The passwd entry has no (non-empty) home directory field.
    MissingHomeDir,
    /// The effective user is not root.
    NotRoot,
    /// The host is not Linux.
    NotLinux { os: String },
    /// A command ran and reported failure.
    CommandFailed { command: String, args: Vec<String> },
    /// No built-in template has this name.
    UnknownTemplate { name: String },
}

impl ForgeError {
    /// The text shown to the user for this error.
    pub open spec fn spec_message(&self) -> Seq<char> {
        match self {
            ForgeError::EmptyProjectName => "项目名称不能为空"@,
            ForgeError::ProjectNameTooLong => "项目名称过长（最多 64 个字符）"@,
            ForgeError::ProjectNameCharset => "项目名称仅允许字母、数字、-、_"@,
            ForgeError::EmptyServerName => "站点域名或 IP 不能为空"@,
            ForgeError::ServerNameTooLong => "站点域名或 IP 过长"@,
            ForgeError::ServerNameCharset => "站点域名或 IP 仅允许字母、数字、.、-、_、:、*"@,
            ForgeError::EmptyProjectRoot => "项目根目录不能为空"@,
            ForgeError::ProjectRootTooLong => "项目根目录过长"@,
            ForgeError::ProjectRootCharset => "项目根目录仅允许字母、数字、/、.、-、_"@,
            ForgeError::ProjectRootNotAbsolute => "项目根目录必须是绝对路径"@,
            ForgeError::ProjectRootDotSegment => "项目根目录不允许包含 . 或 .."@,
            ForgeError::InvalidUsername { name } => "Invalid user name '"@ + name@
                + "'. Use lowercase letters, numbers, '_' or '-', start with letter/_ and max 32 chars"@,
            ForgeError::PatternRejected { pattern } => match pattern {
                PatternKind::Username => "username regex must be valid"@,
                PatternKind::SshKey => "ssh key regex must be valid"@,
            },
            ForgeError::SshKeyMultiline => "Invalid SSH key format. SSH key must be a single line"@,
            ForgeError::SshKeyFormat =>
                "Invalid SSH key format. Must be ssh-rsa, ssh-ed25519, or ecdsa-sha2-nistp256/384/521"@,
            ForgeError::HomeDirLookupFailed { user } => "Failed to resolve home directory for user '"@
                + user@ + "'"@,
            ForgeError::PasswdNotUtf8 => "Failed to parse getent passwd output as UTF-8"@,
            ForgeError::MissingHomeDir => "Missing home directory in passwd entry"@,
            ForgeError::NotRoot => "This command requires root privileges. Run with sudo."@,
            ForgeError::NotLinux { os } => "This tool only works on Linux systems.\nCurrent OS: "@
                + os@ + "\nPlease run this on an Ubuntu/Debian server."@,
            ForgeError::CommandFailed { command, args } => "Command failed: "@ + command@ + " "@
                + join(views(args@), " "@),
            ForgeError::UnknownTemplate { name } => "Unknown template: "@ + name@,
        }
    }

    /// The text shown to the user for this error.
    pub fn message(&self) -> (m: String)
        ensures
            m@ == self.spec_message(),
    {
        match self {
            ForgeError::EmptyProjectName => String::from_str("项目名称不能为空"),
            ForgeError::ProjectNameTooLong => String::from_str("项目名称过长（最多 64 个字符）"),
            ForgeError::ProjectNameCharset => String::from_str("项目名称仅允许字母、数字、-、_"),
            ForgeError::EmptyServerName => String::from_str("站点域名或 IP 不能为空"),
            ForgeError::ServerNameTooLong => String::from_str("站点域名或 IP 过长"),
            ForgeError::ServerNameCharset => String::from_str(
                "站点域名或 IP 仅允许字母、数字、.、-、_、:、*",
            ),
            ForgeError::EmptyProjectRoot => String::from_str("项目根目录不能为空"),
            ForgeError::ProjectRootTooLong => String::from_str("项目根目录过长"),
            ForgeError::ProjectRootCharset => String::from_str(
                "项目根目录仅允许字母、数字、/、.、-、_",
            ),
            ForgeError::ProjectRootNotAbsolute => String::from_str("项目根目录必须是绝对路径"),
            ForgeError::ProjectRootDotSegment => String::from_str("项目根目录不允许包含 . 或 .."),
            ForgeError::InvalidUsername { name } => {
                let mut m = String::from_str("Invalid user name '");
                m.append(name.as_str());
                m.append(
                    "'. Use lowercase letters, numbers, '_' or '-', start with letter/_ and max 32 chars",
                );
                m
            },
            ForgeError::PatternRejected { pattern } => match pattern {
                PatternKind::Username => String::from_str("username regex must be valid"),
                PatternKind::SshKey => String::from_str("ssh key regex must be valid"),
            },
            ForgeError::SshKeyMultiline => String::from_str(
                "Invalid SSH key format. SSH key must be a single line",
            ),
            ForgeError::SshKeyFormat => String::from_str(
                "Invalid SSH key format. Must be ssh-rsa, ssh-ed25519, or ecdsa-sha2-nistp256/384/521",
            ),
            ForgeError::HomeDirLookupFailed { user } => {
                let mut m = String::from_str("Failed to resolve home directory for user '");
                m.append(user.as_str());
                m.append("'");
                m
            },
            ForgeError::PasswdNotUtf8 => String::from_str(
                "Failed to parse getent passwd output as UTF-8",
            ),
            ForgeError::MissingHomeDir => String::from_str("Missing home directory in passwd entry"),
            ForgeError::NotRoot => String::from_str(
                "This command requires root privileges. Run with sudo.",
            ),
            ForgeError::NotLinux { os } => {
                let mut m = String::from_str("This tool only works on Linux systems.\nCurrent OS: ");
                m.append(os.as_str());
                m.append("\nPlease run this on an Ubuntu/Debian server.");
                m
            },
            ForgeError::CommandFailed { command, args } => {
                let mut m = String::from_str("Command failed: ");
                m.append(command.as_str());
                m.append(" ");
                let joined = join_strings(args, " ");
                m.append(joined.as_str());
                m
            },
            ForgeError::UnknownTemplate { name } => {
                let mut m = String::from_str("Unknown template: ");
                m.append(name.as_str());
                m
            },
        }
    }
}

} // verus!
