//! Validation of the values put into the site configuration, and its rendering.

use vstd::prelude::*;
use vstd::utf8::encode_utf8;
use crate::error::ForgeError;
use crate::text::{ascii_alphanumeric, is_ascii_alnum, replace_all, replace_str, to_chars};

verus! {

/// The characters accepted in one kind of configuration value.
#[derive(Debug, Clone, Copy, PartialEq, Eq, Structural)]
pub enum CharClass {
    /// ASCII letters and digits, `-`, `_`.
    ProjectName,
    /// ASCII letters and digits, `.`, `-`, `_`, `:`, `*`.
    ServerName,
    /// ASCII letters and digits, `/`, `.`, `-`, `_`.
    ProjectRoot,
}

impl CharClass {
    pub open spec fn allows(self, c: char) -> bool {
        is_ascii_alnum(c) || match self {
            CharClass::ProjectName => c == '-' || c == '_',
            CharClass::ServerName => c == '.' || c == '-' || c == '_' || c == ':' || c == '*',
            CharClass::ProjectRoot => c == '/' || c == '.' || c == '-' || c == '_',
        }
    }

    pub fn accepts(&self, c: char) -> (b: bool)
        ensures
            b == self.allows(c),
    {
        ascii_alphanumeric(c) || match self {
            CharClass::ProjectName => c == '-' || c == '_',
            CharClass::ServerName => c == '.' || c == '-' || c == '_' || c == ':' || c == '*',
            CharClass::ProjectRoot => c == '/' || c == '.' || c == '-' || c == '_',
        }
    }
}

/// Every character of `s` is in `class`.
pub open spec fn all_in(s: Seq<char>, class: CharClass) -> bool {
    forall|i: int| 0 <= i < s.len() ==> class.allows(#[trigger] s[i])
}

/// The length of `s` in UTF-8 bytes (`str::len`).
pub open spec fn byte_len(s: Seq<char>) -> nat {
    encode_utf8(s).len()
}

/// `s` has a `..` path component.
pub open spec fn has_parent_component(s: Seq<char>) -> bool {
    exists|i: int|
        0 <= i && i + 1 < s.len() && #[trigger] s[i] == '.' && s[i + 1] == '.' && (i == 0 || s[i
            - 1] == '/') && (i + 2 == s.len() || s[i + 2] == '/')
}

/// The first rule that a project name breaks, if any.
pub open spec fn project_name_error(s: Seq<char>) -> Option<ForgeError> {
    if s.len() == 0 {
        Some(ForgeError::EmptyProjectName)
    } else if byte_len(s) > 64 {
        Some(ForgeError::ProjectNameTooLong)
    } else if !all_in(s, CharClass::ProjectName) {
        Some(ForgeError::ProjectNameCharset)
    } else {
        None
    }
}

/// The first rule that a site domain or IP breaks, if any.
pub open spec fn server_name_error(s: Seq<char>) -> Option<ForgeError> {
    if s.len() == 0 {
        Some(ForgeError::EmptyServerName)
    } else if byte_len(s) > 253 {
        Some(ForgeError::ServerNameTooLong)
    } else if !all_in(s, CharClass::ServerName) {
        Some(ForgeError::ServerNameCharset)
    } else {
        None
    }
}

/// The first rule that a project root breaks, if any. Absolute means starting
/// with `/`; `.` components of an absolute path are normalised away by
/// `Path::components`, so only `..` is refused.
pub open spec fn project_root_error(s: Seq<char>) -> Option<ForgeError> {
    if s.len() == 0 {
        Some(ForgeError::EmptyProjectRoot)
    } else if byte_len(s) > 512 {
        Some(ForgeError::ProjectRootTooLong)
    } else if !all_in(s, CharClass::ProjectRoot) {
        Some(ForgeError::ProjectRootCharset)
    } else if s[0] != '/' {
        Some(ForgeError::ProjectRootNotAbsolute)
    } else if has_parent_component(s) {
        Some(ForgeError::ProjectRootDotSegment)
    } else {
        None
    }
}

/// `Ok(())` when no rule is broken, else the error of the first broken rule.
pub open spec fn verdict(e: Option<ForgeError>) -> Result<(), ForgeError> {
    match e {
        Some(e) => Err(e),
        None => Ok(()),
    }
}

/// A project name is accepted exactly when it is not empty, at most 64 bytes
/// long, and made of ASCII letters, digits, `-` and `_` only; otherwise the
/// first broken rule, in that order, is reported.
pub proof fn law_project_name_rules(s: Seq<char>)
    ensures
        s.len() == 0 ==> project_name_error(s) == Some(ForgeError::EmptyProjectName),
        s.len() > 0 && encode_utf8(s).len() > 64 ==> project_name_error(s) == Some(
            ForgeError::ProjectNameTooLong,
        ),
        s.len() > 0 && encode_utf8(s).len() <= 64 && (exists|i: int|
            0 <= i < s.len() && !(('a' <= #[trigger] s[i] && s[i] <= 'z') || ('A' <= s[i] && s[i] <= 'Z') || ('0' <= s[i] && s[i] <= '9') || s[i] == '-' || s[i] == '_')) ==> project_name_error(s) == Some(
            ForgeError::ProjectNameCharset,
        ),
        s.len() > 0 && encode_utf8(s).len() <= 64 && (forall|i: int|
            0 <= i < s.len() ==> ('a' <= #[trigger] s[i] && s[i] <= 'z') || ('A' <= s[i] && s[i] <= 'Z') || ('0' <= s[i] && s[i] <= '9') || s[i] == '-' || s[i] == '_') ==> project_name_error(s) is None,
{
    if s.len() > 0 && encode_utf8(s).len() <= 64 {
        if exists|i: int| 0 <= i < s.len() && !(('a' <= #[trigger] s[i] && s[i] <= 'z') || ('A' <= s[i] && s[i] <= 'Z') || ('0' <= s[i] && s[i] <= '9') || s[i] == '-' || s[i] == '_') {
            let i = choose|i: int| 0 <= i < s.len() && !(('a' <= #[trigger] s[i] && s[i] <= 'z') || ('A' <= s[i] && s[i] <= 'Z') || ('0' <= s[i] && s[i] <= '9') || s[i] == '-' || s[i] == '_');
            assert(!CharClass::ProjectName.allows(s[i]));
        }
    }
}

/// A site domain or IP is accepted exactly when it is not empty, at most 253
/// bytes long, and made of ASCII letters, digits, `.`, `-`, `_`, `:` and `*`
/// only; otherwise the first broken rule, in that order, is reported.
pub proof fn law_server_name_rules(s: Seq<char>)
    ensures
        s.len() == 0 ==> server_name_error(s) == Some(ForgeError::EmptyServerName),
        s.len() > 0 && encode_utf8(s).len() > 253 ==> server_name_error(s) == Some(
            ForgeError::ServerNameTooLong,
        ),
        s.len() > 0 && encode_utf8(s).len() <= 253 && (exists|i: int|
            0 <= i < s.len() && !(('a' <= #[trigger] s[i] && s[i] <= 'z') || ('A' <= s[i] && s[i] <= 'Z') || ('0' <= s[i] && s[i] <= '9') || s[i] == '.' || s[i] == '-' || s[i] == '_' || s[i] == ':' || s[i] == '*')) ==> server_name_error(s) == Some(
            ForgeError::ServerNameCharset,
        ),
        s.len() > 0 && encode_utf8(s).len() <= 253 && (forall|i: int|
            0 <= i < s.len() ==> ('a' <= #[trigger] s[i] && s[i] <= 'z') || ('A' <= s[i] && s[i] <= 'Z') || ('0' <= s[i] && s[i] <= '9') || s[i] == '.' || s[i] == '-' || s[i] == '_' || s[i] == ':' || s[i] == '*') ==> server_name_error(s) is None,
{
    if s.len() > 0 && encode_utf8(s).len() <= 253 {
        if exists|i: int| 0 <= i < s.len() && !(('a' <= #[trigger] s[i] && s[i] <= 'z') || ('A' <= s[i] && s[i] <= 'Z') || ('0' <= s[i] && s[i] <= '9') || s[i] == '.' || s[i] == '-' || s[i] == '_' || s[i] == ':' || s[i] == '*') {
            let i = choose|i: int| 0 <= i < s.len() && !(('a' <= #[trigger] s[i] && s[i] <= 'z') || ('A' <= s[i] && s[i] <= 'Z') || ('0' <= s[i] && s[i] <= '9') || s[i] == '.' || s[i] == '-' || s[i] == '_' || s[i] == ':' || s[i] == '*');
            assert(!CharClass::ServerName.allows(s[i]));
        }
    }
}

/// A project root is refused for its length or characters exactly as stated:
/// empty, over 512 bytes, or holding a character other than ASCII letters,
/// digits, `/`, `.`, `-`, `_`; one that passes these is not refused for its
/// characters.
pub proof fn law_project_root_charset(s: Seq<char>)
    ensures
        s.len() == 0 ==> project_root_error(s) == Some(ForgeError::EmptyProjectRoot),
        s.len() > 0 && encode_utf8(s).len() > 512 ==> project_root_error(s) == Some(
            ForgeError::ProjectRootTooLong,
        ),
        s.len() > 0 && encode_utf8(s).len() <= 512 && (exists|i: int|
            0 <= i < s.len() && !(('a' <= #[trigger] s[i] && s[i] <= 'z') || ('A' <= s[i] && s[i] <= 'Z') || ('0' <= s[i] && s[i] <= '9') || s[i] == '/' || s[i] == '.' || s[i] == '-' || s[i] == '_')) ==> project_root_error(s) == Some(
            ForgeError::ProjectRootCharset,
        ),
        s.len() > 0 && encode_utf8(s).len() <= 512 && (forall|i: int|
            0 <= i < s.len() ==> ('a' <= #[trigger] s[i] && s[i] <= 'z') || ('A' <= s[i] && s[i] <= 'Z') || ('0' <= s[i] && s[i] <= '9') || s[i] == '/' || s[i] == '.' || s[i] == '-' || s[i] == '_') ==> (project_root_error(s) != Some(ForgeError::ProjectRootCharset)),
{
    if s.len() > 0 && encode_utf8(s).len() <= 512 {
        if exists|i: int| 0 <= i < s.len() && !(('a' <= #[trigger] s[i] && s[i] <= 'z') || ('A' <= s[i] && s[i] <= 'Z') || ('0' <= s[i] && s[i] <= '9') || s[i] == '/' || s[i] == '.' || s[i] == '-' || s[i] == '_') {
            let i = choose|i: int| 0 <= i < s.len() && !(('a' <= #[trigger] s[i] && s[i] <= 'z') || ('A' <= s[i] && s[i] <= 'Z') || ('0' <= s[i] && s[i] <= '9') || s[i] == '/' || s[i] == '.' || s[i] == '-' || s[i] == '_');
            assert(!CharClass::ProjectRoot.allows(s[i]));
        }
    }
}

/// Past the length and character rules, a project root is refused exactly
/// when it is not absolute (does not start with `/`), or when it has a `..`
/// component: it splits as `a + "/.." + b` with `b` empty or starting a new
/// component. Anything else (`.` components, names like `...` or `..x`) passes.
pub proof fn law_project_root_components(s: Seq<char>)
    requires
        s.len() > 0,
        encode_utf8(s).len() <= 512,
        all_in(s, CharClass::ProjectRoot),
    ensures
        s[0] != '/' ==> project_root_error(s) == Some(ForgeError::ProjectRootNotAbsolute),
        s[0] == '/' ==> (project_root_error(s) == Some(ForgeError::ProjectRootDotSegment) <==> exists|
            a: Seq<char>,
            b: Seq<char>,
        | s == a + seq!['/', '.', '.'] + b && (b.len() == 0 || b[0] == '/')),
        s[0] == '/' ==> (project_root_error(s) is None <==> !exists|a: Seq<char>, b: Seq<char>|
            s == a + seq!['/', '.', '.'] + b && (b.len() == 0 || b[0] == '/')),
{
    if s[0] == '/' {
        if has_parent_component(s) {
            let i = choose|i: int|
                0 <= i && i + 1 < s.len() && #[trigger] s[i] == '.' && s[i + 1] == '.' && (i == 0
                    || s[i - 1] == '/') && (i + 2 == s.len() || s[i + 2] == '/');
            let a = s.subrange(0, i - 1);
            let b = s.subrange(i + 2, s.len() as int);
            assert(s == a + seq!['/', '.', '.'] + b);
        }
        if exists|a: Seq<char>, b: Seq<char>|
            s == a + seq!['/', '.', '.'] + b && (b.len() == 0 || b[0] == '/') {
            let (a, b) = choose|a: Seq<char>, b: Seq<char>|
                s == a + seq!['/', '.', '.'] + b && (b.len() == 0 || b[0] == '/');
            let i: int = a.len() as int + 1;
            assert(s[i] == '.' && s[i + 1] == '.' && s[i - 1] == '/');
            if b.len() > 0 {
                assert(s[i + 2] == b[0]);
            }
            assert(has_parent_component(s));
        }
    }
}

/// Whether every character of `s` is in `class`.
pub fn all_chars_in(s: &str, class: CharClass) -> (b: bool)
    ensures
        b == all_in(s@, class),
{
    let n = s.unicode_len();
    let mut i: usize = 0;
    while i < n
        invariant
            n == s@.len(),
            i <= n,
            forall|k: int| 0 <= k < i ==> class.allows(#[trigger] s@[k]),
        decreases n - i,
    {
        if !class.accepts(s.get_char(i)) {
            assert(!class.allows(s@[i as int]));
            return false;
        }
        i = i + 1;
    }
    true
}

/// Checks a project name: not empty, at most 64 bytes, ASCII letters and
/// digits, `-` and `_` only.
pub fn validate_project_name(name: &str) -> (r: Result<(), ForgeError>)
    ensures
        r == verdict(project_name_error(name@)),
{
    if name.is_empty() {
        return Err(ForgeError::EmptyProjectName);
    }
    if name.as_bytes().len() > 64 {
        return Err(ForgeError::ProjectNameTooLong);
    }
    if !all_chars_in(name, CharClass::ProjectName) {
        return Err(ForgeError::ProjectNameCharset);
    }
    Ok(())
}

/// Checks a site domain or IP: not empty, at most 253 bytes, ASCII letters and
/// digits and `.-_:*` only.
pub fn validate_server_name(value: &str) -> (r: Result<(), ForgeError>)
    ensures
        r == verdict(server_name_error(value@)),
{
    if value.is_empty() {
        return Err(ForgeError::EmptyServerName);
    }
    if value.as_bytes().len() > 253 {
        return Err(ForgeError::ServerNameTooLong);
    }
    if !all_chars_in(value, CharClass::ServerName) {
        return Err(ForgeError::ServerNameCharset);
    }
    Ok(())
}

/// Whether `c` has a `..` component.
fn has_parent_dir(c: &Vec<char>) -> (b: bool)
    ensures
        b == has_parent_component(c@),
{
    let n = c.len();
    let mut i: usize = 0;
    while n > 0 && i < n - 1
        invariant
            n == c@.len(),
            i <= n,
            forall|k: int|
                0 <= k < i ==> !(k + 1 < c@.len() && #[trigger] c@[k] == '.' && c@[k + 1] == '.'
                    && (k == 0 || c@[k - 1] == '/') && (k + 2 == c@.len() || c@[k + 2] == '/')),
        decreases n - i,
    {
        if c[i] == '.' && c[i + 1] == '.' && (i == 0 || c[i - 1] == '/') && (i + 2 == n || c[i
            + 2] == '/') {
            return true;
        }
        i = i + 1;
    }
    false
}

/// Checks a project root: not empty, at most 512 bytes, ASCII letters and
/// digits and `/.-_` only, absolute, and free of `..` components.
pub fn validate_project_root(path: &str) -> (r: Result<(), ForgeError>)
    ensures
        r == verdict(project_root_error(path@)),
{
    if path.is_empty() {
        return Err(ForgeError::EmptyProjectRoot);
    }
    if path.as_bytes().len() > 512 {
        return Err(ForgeError::ProjectRootTooLong);
    }
    if !all_chars_in(path, CharClass::ProjectRoot) {
        return Err(ForgeError::ProjectRootCharset);
    }
    let c = to_chars(path);
    if c[0] != '/' {
        return Err(ForgeError::ProjectRootNotAbsolute);
    }
    if has_parent_dir(&c) {
        return Err(ForgeError::ProjectRootDotSegment);
    }
    Ok(())
}

/// The site configuration: `template` with `{{PROJECT_NAME}}`,
/// `{{PROJECT_ROOT}}` and `{{SERVER_NAME}}` replaced, in that order.
pub open spec fn app_config_text(
    template: Seq<char>,
    project_name: Seq<char>,
    server_name: Seq<char>,
    project_root: Seq<char>,
) -> Seq<char> {
    replace_all(
        replace_all(
            replace_all(template, "{{PROJECT_NAME}}"@, project_name),
            "{{PROJECT_ROOT}}"@,
            project_root,
        ),
        "{{SERVER_NAME}}"@,
        server_name,
    )
}

/// The first error among the project name, server name and project root
/// checks, taken in that order.
pub open spec fn app_config_error(
    project_name: Seq<char>,
    server_name: Seq<char>,
    project_root: Seq<char>,
) -> Option<ForgeError> {
    match project_name_error(project_name) {
        Some(e) => Some(e),
        None => match server_name_error(server_name) {
            Some(e) => Some(e),
            None => project_root_error(project_root),
        },
    }
}

/// Validates the project name, the server name and the project root, in that order.
pub fn check_app_config(project_name: &str, server_name: &str, project_root: &str) -> (r: Result<
    (),
    ForgeError,
>)
    ensures
        r == verdict(app_config_error(project_name@, server_name@, project_root@)),
{
    validate_project_name(project_name)?;
    validate_server_name(server_name)?;
    validate_project_root(project_root)
}

/// Validates the values as `check_app_config` does, then renders the site
/// configuration from `template`.
pub fn render_app_config(
    template: &str,
    project_name: &str,
    server_name: &str,
    project_root: &str,
) -> (r: Result<String, ForgeError>)
    ensures
        match app_config_error(project_name@, server_name@, project_root@) {
            Some(e) => r == Err::<String, ForgeError>(e),
            None => r matches Ok(s) && s@ == app_config_text(
                template@,
                project_name@,
                server_name@,
                project_root@,
            ),
        },
{
    check_app_config(project_name, server_name, project_root)?;
    proof {
        reveal_strlit("{{PROJECT_NAME}}");
        reveal_strlit("{{PROJECT_ROOT}}");
        reveal_strlit("{{SERVER_NAME}}");
    }
    let step1 = replace_str(template, "{{PROJECT_NAME}}", project_name);
    let step2 = replace_str(step1.as_str(), "{{PROJECT_ROOT}}", project_root);
    let step3 = replace_str(step2.as_str(), "{{SERVER_NAME}}", server_name);
    Ok(step3)
}

/// Where the site configuration of `project_name` is written.
pub fn app_config_path(project_name: &str) -> (r: String)
    ensures
        r@ == "/etc/nginx/conf.d/"@ + project_name@ + ".conf"@,
{
    let mut r = String::from_str("/etc/nginx/conf.d/");
    r.append(project_name);
    r.append(".conf");
    r
}

} // verus!
