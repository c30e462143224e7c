//! The decisions of `forge init`: the server name, the ordered steps of the
//! initialisation, and the closing summary.

use vstd::prelude::*;
use vstd::utf8::{is_ascii_chars, is_ascii_chars_encode_utf8};
use crate::error::{ForgeError, PatternKind};
use crate::nginx::config::{CharClass, all_in, has_parent_component, project_name_error, project_root_error};
use crate::pattern::regex_compiles;
use crate::text::{str_equal, views};
use crate::system::CommandLine;
use crate::user::{username_form, DeployUser, USERNAME_PATTERN, username_accepted};

verus! {

/// The server name used for the site, and whether a `--domain` given without
/// a project is being ignored.
pub struct ServerChoice {
    pub server_name: String,
    pub domain_ignored: bool,
}

/// The site's server name: the given domain when a project is created,
/// `localhost` otherwise.
pub open spec fn chosen_server_name(has_project: bool, domain: Seq<char>) -> Seq<char> {
    if has_project {
        domain
    } else {
        "localhost"@
    }
}

/// Picks the site's server name.
pub fn choose_server_name(project: &Option<String>, domain: &str) -> (c: ServerChoice)
    ensures
        c.server_name@ == chosen_server_name(project is Some, domain@),
        c.domain_ignored == (project is None && domain@ != "localhost"@),
{
    match project {
        Some(_) => ServerChoice { server_name: String::from_str(domain), domain_ignored: false },
        None => {
            let ignored = !str_equal(domain, "localhost");
            ServerChoice { server_name: String::from_str("localhost"), domain_ignored: ignored }
        },
    }
}

/// One step of the initialisation, carried out in order by the executable.
#[derive(Debug, Clone, Copy, PartialEq, Eq, Structural)]
pub enum InitStep {
    /// Ask whether to add an SSH public key for the deploy user, and which.
    AskSshKey,
    /// Install nginx.
    InstallNginx,
    /// Create the deploy user, unless it exists.
    CreateUser,
    /// Set up the user's `~/.ssh` and register the key given or asked for.
    SetupSsh,
    /// Make sure `/var/www` exists and hand it to the deploy user.
    ConfigureWebRoot,
    /// Tell that the given SSH key is ignored, as no user is created.
    WarnSshKeyIgnored,
    /// Create the project directory with its index page; hand it to the
    /// deploy user, or tell that root owns it.
    CreateProject { owned_by_user: bool },
    /// Remove nginx's default site.
    RemoveDefaultSite,
    /// Install the nginx main configuration.
    InstallMainConfig,
    /// Validate and install the site configuration.
    InstallAppConfig,
    /// Enable and start nginx.
    EnableAndStart,
}

/// A step that asks the user something.
pub open spec fn is_question(s: InitStep) -> bool {
    s == InitStep::AskSshKey
}

/// A step that changes the system (rather than asking or telling).
pub open spec fn changes_system(s: InitStep) -> bool {
    s != InitStep::AskSshKey && s != InitStep::WarnSshKeyIgnored
}

/// The steps of an initialisation, in order: every question comes first.
pub open spec fn init_steps(has_user: bool, has_project: bool, key_given: bool) -> Seq<InitStep> {
    (if has_user && !key_given {
        seq![InitStep::AskSshKey]
    } else {
        Seq::empty()
    }) + seq![InitStep::InstallNginx] + (if has_user {
        seq![InitStep::CreateUser, InitStep::SetupSsh, InitStep::ConfigureWebRoot]
    } else if key_given {
        seq![InitStep::WarnSshKeyIgnored]
    } else {
        Seq::empty()
    }) + (if has_project {
        seq![InitStep::CreateProject { owned_by_user: has_user }]
    } else {
        Seq::empty()
    }) + seq![InitStep::RemoveDefaultSite, InitStep::InstallMainConfig] + (if has_project {
        seq![InitStep::InstallAppConfig]
    } else {
        Seq::empty()
    }) + seq![InitStep::EnableAndStart]
}

/// Checks the deploy user name, if any, and lays out the steps.
pub fn plan_init(username: &Option<String>, project: &Option<String>, ssh_key_given: bool) -> (r:
    Result<Vec<InitStep>, ForgeError>)
    ensures
        match username {
            Some(u) => if !regex_compiles(USERNAME_PATTERN@) {
                r == Err::<Vec<InitStep>, ForgeError>(
                    ForgeError::PatternRejected { pattern: PatternKind::Username },
                )
            } else if !username_accepted(u@) {
                r matches Err(ForgeError::InvalidUsername { name }) && name@ == u@
            } else {
                r matches Ok(v) && v@ == init_steps(true, project is Some, ssh_key_given)
            },
            None => r matches Ok(v) && v@ == init_steps(false, project is Some, ssh_key_given),
        },
        match username {
            Some(u) => regex_compiles(USERNAME_PATTERN@) ==> (r is Ok <==> username_form(u@)),
            None => r is Ok,
        },
{
    if let Some(u) = username {
        match DeployUser::validate_username(u.as_str()) {
            Ok(()) => {},
            Err(e) => {
                return Err(e);
            },
        }
    }
    let has_user = username.is_some();
    let has_project = project.is_some();
    let mut v: Vec<InitStep> = Vec::new();
    if has_user && !ssh_key_given {
        v.push(InitStep::AskSshKey);
    }
    v.push(InitStep::InstallNginx);
    if has_user {
        v.push(InitStep::CreateUser);
        v.push(InitStep::SetupSsh);
        v.push(InitStep::ConfigureWebRoot);
    } else if ssh_key_given {
        v.push(InitStep::WarnSshKeyIgnored);
    }
    if has_project {
        v.push(InitStep::CreateProject { owned_by_user: has_user });
    }
    v.push(InitStep::RemoveDefaultSite);
    v.push(InitStep::InstallMainConfig);
    if has_project {
        v.push(InitStep::InstallAppConfig);
    }
    v.push(InitStep::EnableAndStart);
    assert(v@ == init_steps(has_user, has_project, ssh_key_given));
    Ok(v)
}

/// The shape of every initialisation. Every question is asked before the
/// first step that changes the system, and the first such step installs
/// nginx; the last enables and starts it. The SSH key is asked for exactly
/// when a user is created and no key was given. A user is created, its SSH
/// access set up and the web root handed to it exactly when one is asked for.
/// A key given without a user is reported as ignored. A project directory
/// and a site configuration are made exactly when a project is asked for.
#[verifier::rlimit(60)]
pub proof fn law_init_steps(has_user: bool, has_project: bool, key_given: bool)
    ensures
        ({
            let s = init_steps(has_user, has_project, key_given);
            let first = if has_user && !key_given {
                1int
            } else {
                0int
            };
            &&& forall|i: int, j: int|
                0 <= i < s.len() && 0 <= j < s.len() && is_question(#[trigger] s[j])
                    && changes_system(#[trigger] s[i]) ==> j < i
            &&& s[first] == InitStep::InstallNginx
            &&& forall|i: int| 0 <= i < first ==> !changes_system(#[trigger] s[i])
            &&& s.last() == InitStep::EnableAndStart
            &&& s.contains(InitStep::AskSshKey) <==> has_user && !key_given
            &&& s.contains(InitStep::CreateUser) <==> has_user
            &&& s.contains(InitStep::SetupSsh) <==> has_user
            &&& s.contains(InitStep::ConfigureWebRoot) <==> has_user
            &&& s.contains(InitStep::WarnSshKeyIgnored) <==> !has_user && key_given
            &&& s.contains(InitStep::CreateProject { owned_by_user: has_user }) <==> has_project
            &&& s.contains(InitStep::InstallAppConfig) <==> has_project
        }),
{
    let s = init_steps(has_user, has_project, key_given);
    let ask_part = if has_user && !key_given {
        seq![InitStep::AskSshKey]
    } else {
        Seq::empty()
    };
    let user_part = if has_user {
        seq![InitStep::CreateUser, InitStep::SetupSsh, InitStep::ConfigureWebRoot]
    } else if key_given {
        seq![InitStep::WarnSshKeyIgnored]
    } else {
        Seq::empty()
    };
    let project_part = if has_project {
        seq![InitStep::CreateProject { owned_by_user: has_user }]
    } else {
        Seq::empty()
    };
    let site_part = if has_project {
        seq![InitStep::InstallAppConfig]
    } else {
        Seq::empty()
    };
    let mid = seq![InitStep::RemoveDefaultSite, InitStep::InstallMainConfig];
    assert(s == ask_part + seq![InitStep::InstallNginx] + user_part + project_part + mid
        + site_part + seq![InitStep::EnableAndStart]);
    let n0: int = ask_part.len() as int;
    let n1: int = n0 + 1 + user_part.len() as int;
    let n2: int = n1 + project_part.len() as int;
    let n3: int = n2 + 2;
    let n4: int = n3 + site_part.len() as int;
    assert(s.len() == n4 + 1);
    assert forall|i: int| 0 <= i < s.len() implies #[trigger] s[i] == (if i < n0 {
        ask_part[i]
    } else if i == n0 {
        InitStep::InstallNginx
    } else if i < n1 {
        user_part[i - n0 - 1]
    } else if i < n2 {
        project_part[i - n1]
    } else if i < n3 {
        mid[i - n2]
    } else if i < n4 {
        site_part[i - n3]
    } else {
        InitStep::EnableAndStart
    }) by {}
    if has_user {
        assert(s[n0 + 1] == InitStep::CreateUser);
        assert(s[n0 + 2] == InitStep::SetupSsh);
        assert(s[n0 + 3] == InitStep::ConfigureWebRoot);
    } else if key_given {
        assert(s[n0 + 1] == InitStep::WarnSshKeyIgnored);
    }
    if has_user && !key_given {
        assert(s[0] == InitStep::AskSshKey);
    }
    if has_project {
        assert(s[n1] == InitStep::CreateProject { owned_by_user: has_user });
        assert(s[n3] == InitStep::InstallAppConfig);
    }
}

/// Where every step of a plan stands, for each of the eight combinations of
/// user, project and given key. With `a` the questions asked first (one when a
/// user is created without a given key), `b` the user steps (three with a
/// user, one warning when only a key is given) and `c` one when a project is
/// made: nginx is installed at `a`; the user steps follow; the project
/// directory, when made, comes next; then nginx's default site is removed and
/// its main configuration installed, each exactly once and in that order; then
/// the site configuration when a project is made; and nginx is started last.
#[verifier::rlimit(60)]
pub proof fn law_init_fixed_steps(has_user: bool, has_project: bool, key_given: bool)
    ensures
        ({
            let s = init_steps(has_user, has_project, key_given);
            let a: int = if has_user && !key_given {
                1
            } else {
                0
            };
            let b: int = if has_user {
                3
            } else if key_given {
                1
            } else {
                0
            };
            let c: int = if has_project {
                1
            } else {
                0
            };
            &&& s.len() == a + b + 2 * c + 4
            &&& s[a] == InitStep::InstallNginx
            &&& has_user ==> s[a + 1] == InitStep::CreateUser && s[a + 2] == InitStep::SetupSsh
                && s[a + 3] == InitStep::ConfigureWebRoot
            &&& has_project ==> s[a + 1 + b] == InitStep::CreateProject { owned_by_user: has_user }
            &&& s[a + 1 + b + c] == InitStep::RemoveDefaultSite
            &&& s[a + 2 + b + c] == InitStep::InstallMainConfig
            &&& has_project ==> s[a + 3 + b + c] == InitStep::InstallAppConfig
            &&& s[a + b + 2 * c + 3] == InitStep::EnableAndStart
            &&& forall|i: int|
                0 <= i < s.len() && #[trigger] s[i] == InitStep::RemoveDefaultSite ==> i == a + 1
                    + b + c
            &&& forall|i: int|
                0 <= i < s.len() && #[trigger] s[i] == InitStep::InstallMainConfig ==> i == a + 2
                    + b + c
            &&& forall|i: int|
                0 <= i < s.len() && #[trigger] s[i] == InitStep::InstallNginx ==> i == a
            &&& forall|i: int|
                0 <= i < s.len() && #[trigger] s[i] == InitStep::EnableAndStart ==> i == s.len() - 1
        }),
{
    let s = init_steps(has_user, has_project, key_given);
    let ask_part = if has_user && !key_given {
        seq![InitStep::AskSshKey]
    } else {
        Seq::empty()
    };
    let user_part = if has_user {
        seq![InitStep::CreateUser, InitStep::SetupSsh, InitStep::ConfigureWebRoot]
    } else if key_given {
        seq![InitStep::WarnSshKeyIgnored]
    } else {
        Seq::empty()
    };
    let project_part = if has_project {
        seq![InitStep::CreateProject { owned_by_user: has_user }]
    } else {
        Seq::empty()
    };
    let site_part = if has_project {
        seq![InitStep::InstallAppConfig]
    } else {
        Seq::empty()
    };
    let mid = seq![InitStep::RemoveDefaultSite, InitStep::InstallMainConfig];
    assert(s == ask_part + seq![InitStep::InstallNginx] + user_part + project_part + mid
        + site_part + seq![InitStep::EnableAndStart]);
    let n0: int = ask_part.len() as int;
    let n1: int = n0 + 1 + user_part.len() as int;
    let n2: int = n1 + project_part.len() as int;
    let n3: int = n2 + 2;
    let n4: int = n3 + site_part.len() as int;
    assert(s.len() == n4 + 1);
    assert forall|i: int| 0 <= i < s.len() implies #[trigger] s[i] == (if i < n0 {
        ask_part[i]
    } else if i == n0 {
        InitStep::InstallNginx
    } else if i < n1 {
        user_part[i - n0 - 1]
    } else if i < n2 {
        project_part[i - n1]
    } else if i < n3 {
        mid[i - n2]
    } else if i < n4 {
        site_part[i - n3]
    } else {
        InitStep::EnableAndStart
    }) by {}
    assert(s[n2] == InitStep::RemoveDefaultSite);
    assert(s[n2 + 1] == InitStep::InstallMainConfig);
    assert(s[n0] == InitStep::InstallNginx);
    assert(s[n4] == InitStep::EnableAndStart);
    if has_user {
        assert(s[n0 + 1] == InitStep::CreateUser);
        assert(s[n0 + 2] == InitStep::SetupSsh);
        assert(s[n0 + 3] == InitStep::ConfigureWebRoot);
    }
    if has_project {
        assert(s[n1] == InitStep::CreateProject { owned_by_user: has_user });
        assert(s[n3] == InitStep::InstallAppConfig);
    }
}

/// Hands the web root `/var/www` to the deploy user.
pub fn web_root_owner_command(username: &str) -> (c: CommandLine)
    ensures
        c@ == ("chown"@, seq![username@ + ":"@ + username@, "/var/www"@], None::<Seq<char>>),
{
    let owner = DeployUser::owner_spec(username);
    let mut c = CommandLine::new("chown");
    c.arg(owner.as_str());
    c.arg("/var/www");
    c
}

/// The directory of a project under the web root.
pub fn project_dir(name: &str) -> (r: String)
    ensures
        r@ == "/var/www/"@ + name@,
{
    let mut r = String::from_str("/var/www/");
    r.append(name);
    r
}

/// The index page of a project directory.
pub fn index_file(project_dir: &str) -> (r: String)
    ensures
        r@ == project_dir@ + "/index.html"@,
{
    let mut r = String::from_str(project_dir);
    r.append("/index.html");
    r
}

/// The project directory made for an accepted project name is itself an
/// accepted project root, so the site configuration never rejects it.
pub proof fn law_project_dir_is_valid_root(name: Seq<char>)
    requires
        project_name_error(name) is None,
    ensures
        project_root_error("/var/www/"@ + name) is None,
{
    reveal_strlit("/var/www/");
    let prefix = "/var/www/"@;
    let s = prefix + name;
    assert(is_ascii_chars(name)) by {
        assert forall|i: int| 0 <= i < name.len() implies '\0' <= #[trigger] name[i] <= '\u{7f}' by {
            assert(CharClass::ProjectName.allows(name[i]));
        }
    }
    is_ascii_chars_encode_utf8(name);
    assert(is_ascii_chars(s)) by {
        assert forall|i: int| 0 <= i < s.len() implies '\0' <= #[trigger] s[i] <= '\u{7f}' by {
            if i >= prefix.len() {
                assert(s[i] == name[i - prefix.len()]);
                assert(CharClass::ProjectName.allows(name[i - prefix.len()]));
            }
        }
    }
    is_ascii_chars_encode_utf8(s);
    assert(all_in(s, CharClass::ProjectRoot)) by {
        assert forall|i: int| 0 <= i < s.len() implies CharClass::ProjectRoot.allows(#[trigger] s[i]) by {
            if i >= prefix.len() {
                assert(s[i] == name[i - prefix.len()]);
                assert(CharClass::ProjectName.allows(name[i - prefix.len()]));
            }
        }
    }
    assert(!has_parent_component(s)) by {
        assert forall|i: int| 0 <= i < s.len() implies #[trigger] s[i] != '.' by {
            if i >= prefix.len() {
                assert(s[i] == name[i - prefix.len()]);
                assert(CharClass::ProjectName.allows(name[i - prefix.len()]));
            }
        }
    }
}

/// The view of an optional string.
pub open spec fn opt_view(o: Option<String>) -> Option<Seq<char>> {
    match o {
        Some(s) => Some(s@),
        None => None,
    }
}

/// The closing summary, one entry per line.
pub open spec fn summary(user: Option<Seq<char>>, project: Option<Seq<char>>, server_name: Seq<
    char,
>) -> Seq<Seq<char>> {
    (match user {
        Some(u) => seq!["Deploy user: "@ + u],
        None => Seq::empty(),
    }) + seq!["Web root: /var/www"@] + (match project {
        Some(p) => seq!["Project directory: /var/www/"@ + p, "Server name: "@ + server_name],
        None => Seq::empty(),
    })
}

/// The summary names the deploy user first when there is one, then the web
/// root, then the project directory and the server name when a project was
/// made.
pub proof fn law_summary(user: Option<Seq<char>>, project: Option<Seq<char>>, server_name: Seq<char>)
    ensures
        ({
            let s = summary(user, project, server_name);
            let a: int = if user is Some {
                1
            } else {
                0
            };
            &&& s.len() == a + 1 + if project is Some {
                2int
            } else {
                0int
            }
            &&& user matches Some(u) ==> s[0] == "Deploy user: "@ + u
            &&& s[a] == "Web root: /var/www"@
            &&& project matches Some(p) ==> s[a + 1] == "Project directory: /var/www/"@ + p && s[a
                + 2] == "Server name: "@ + server_name
        }),
{
}

/// The closing summary of an initialisation.
pub fn summary_lines(username: &Option<String>, project: &Option<String>, server_name: &str) -> (v:
    Vec<String>)
    ensures
        views(v@) == summary(opt_view(*username), opt_view(*project), server_name@),
{
    let mut v: Vec<String> = Vec::new();
    if let Some(u) = username {
        let mut line = String::from_str("Deploy user: ");
        line.append(u.as_str());
        v.push(line);
    }
    v.push(String::from_str("Web root: /var/www"));
    if let Some(p) = project {
        let mut dir = String::from_str("Project directory: /var/www/");
        dir.append(p.as_str());
        v.push(dir);
        let mut server = String::from_str("Server name: ");
        server.append(server_name);
        v.push(server);
    }
    assert(views(v@) == summary(opt_view(*username), opt_view(*project), server_name@));
    v
}

} // verus!
