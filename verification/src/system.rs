//! Decisions around running system commands: which program path to run, the
//! messages shown around a run, and the checks made on the host.

use vstd::prelude::*;
use vstd::utf8::{decode_utf8, valid_utf8};
use crate::error::ForgeError;
use crate::text::{contains_char, join, join_strings, str_equal, trim, trim_str, views};

verus! {

/// A program with its arguments, and the text fed to its standard input if
/// any, as handed to the process launcher.
pub struct CommandLine {
    pub program: String,
    pub args: Vec<String>,
    pub stdin: Option<String>,
}

impl View for CommandLine {
    type V = (Seq<char>, Seq<Seq<char>>, Option<Seq<char>>);

    open spec fn view(&self) -> (Seq<char>, Seq<Seq<char>>, Option<Seq<char>>) {
        (
            self.program@,
            views(self.args@),
            match self.stdin {
                Some(t) => Some(t@),
                None => None,
            },
        )
    }
}

impl CommandLine {
    /// `program` with no arguments and no input yet.
    pub fn new(program: &str) -> (c: CommandLine)
        ensures
            c@ == (program@, Seq::<Seq<char>>::empty(), None::<Seq<char>>),
    {
        let c = CommandLine { program: String::from_str(program), args: Vec::new(), stdin: None };
        assert(views(c.args@) == Seq::<Seq<char>>::empty());
        c
    }

    /// Appends one argument.
    pub fn arg(&mut self, a: &str)
        ensures
            final(self)@ == (old(self)@.0, old(self)@.1.push(a@), old(self)@.2),
    {
        self.args.push(String::from_str(a));
        assert(views(self.args@) == views(old(self).args@).push(a@));
    }

    /// Sets the text fed to the program's standard input.
    pub fn input(&mut self, text: String)
        ensures
            final(self)@ == (old(self)@.0, old(self)@.1, Some(text@)),
    {
        self.stdin = Some(text);
    }
}

/// `Path::join` of `rel` onto `base` on Unix: an absolute `rel` replaces `base`;
/// otherwise a `/` separates them unless `base` is empty or already ends in one.
pub open spec fn path_join(base: Seq<char>, rel: Seq<char>) -> Seq<char> {
    if rel.len() > 0 && rel[0] == '/' {
        rel
    } else if base.len() > 0 && base.last() != '/' {
        base + seq!['/'] + rel
    } else {
        base + rel
    }
}

/// `Path::join` followed by `to_string_lossy`, for paths that are strings.
pub fn join_path(base: &str, rel: &str) -> (r: String)
    ensures
        r@ == path_join(base@, rel@),
{
    let rn = rel.unicode_len();
    if rn > 0 && rel.get_char(0) == '/' {
        return String::from_str(rel);
    }
    let bn = base.unicode_len();
    let mut r = String::from_str(base);
    if bn > 0 && base.get_char(bn - 1) != '/' {
        r.append("/");
        proof {
            reveal_strlit("/");
        }
    }
    r.append(rel);
    r
}

/// The directories searched, in order, for a command that is not on `PATH`.
pub open spec fn search_dirs() -> Seq<Seq<char>> {
    seq!["/usr/local/sbin"@, "/usr/sbin"@, "/sbin"@, "/usr/local/bin"@, "/usr/bin"@, "/bin"@]
}

/// What `resolve_command` settles on: `cmd` itself when it holds a `/` or is
/// found on `PATH`; otherwise the first search directory `i` for which
/// `present[i]` says the joined path is a file; otherwise `cmd`.
pub open spec fn resolved_command(cmd: Seq<char>, in_path: bool, present: Seq<bool>) -> Seq<char> {
    if cmd.contains('/') || in_path {
        cmd
    } else {
        first_present(cmd, present, 0)
    }
}

/// The first candidate from position `i` on whose file is present, or `cmd`.
pub open spec fn first_present(cmd: Seq<char>, present: Seq<bool>, i: int) -> Seq<char>
    decreases search_dirs().len() - i,
{
    if i < 0 || i >= search_dirs().len() {
        cmd
    } else if i < present.len() && present[i] {
        path_join(search_dirs()[i], cmd)
    } else {
        first_present(cmd, present, i + 1)
    }
}

/// Joining paths: an absolute part replaces the base; otherwise one `/`
/// separates base and part, none being added when the base is empty or
/// already ends with `/`.
pub proof fn law_path_join(base: Seq<char>, rel: Seq<char>)
    ensures
        rel.len() > 0 && rel[0] == '/' ==> path_join(base, rel) == rel,
        !(rel.len() > 0 && rel[0] == '/') && base.len() > 0 && base.last() != '/' ==> path_join(
            base,
            rel,
        ) == base + seq!['/'] + rel,
        !(rel.len() > 0 && rel[0] == '/') && (base.len() == 0 || base.last() == '/')
            ==> path_join(base, rel) == base + rel,
{
}

proof fn lemma_first_present_skip(cmd: Seq<char>, present: Seq<bool>, k: int, i: int)
    requires
        0 <= k <= i <= search_dirs().len(),
        forall|j: int| k <= j < i ==> !(j < present.len() && #[trigger] present[j]),
    ensures
        first_present(cmd, present, k) == first_present(cmd, present, i),
    decreases i - k,
{
    if k < i {
        lemma_first_present_skip(cmd, present, k + 1, i);
    }
}

/// Where a command is looked for, and in which order. A command holding a
/// `/`, or found on `PATH`, is run as given. Otherwise the directories
/// `/usr/local/sbin`, `/usr/sbin`, `/sbin`, `/usr/local/bin`, `/usr/bin`,
/// `/bin` are tried in this order, starting with the first: the command
/// resolves to `<dir>/<cmd>` for the first directory `i` whose probe
/// `present[i]` says the file is there, and to the bare command when none is.
pub proof fn law_resolution_order(cmd: Seq<char>, in_path: bool, present: Seq<bool>)
    ensures
        cmd.contains('/') || in_path ==> resolved_command(cmd, in_path, present) == cmd,
        forall|i: int|
            #![trigger present[i]]
            0 <= i < 6 && i < present.len() && present[i] && !cmd.contains('/') && !in_path && (
            forall|j: int| 0 <= j < i ==> !(j < present.len() && present[j])) ==> resolved_command(
                cmd,
                in_path,
                present,
            ) == seq![
                "/usr/local/sbin"@,
                "/usr/sbin"@,
                "/sbin"@,
                "/usr/local/bin"@,
                "/usr/bin"@,
                "/bin"@,
            ][i] + seq!['/'] + cmd,
        !cmd.contains('/') && !in_path && (forall|j: int|
            0 <= j < 6 ==> !(j < present.len() && #[trigger] present[j])) ==> resolved_command(
            cmd,
            in_path,
            present,
        ) == cmd,
{
    reveal_strlit("/usr/local/sbin");
    reveal_strlit("/usr/sbin");
    reveal_strlit("/sbin");
    reveal_strlit("/usr/local/bin");
    reveal_strlit("/usr/bin");
    reveal_strlit("/bin");
    assert forall|i: int|
        #![trigger present[i]]
        0 <= i < 6 && i < present.len() && present[i] && !cmd.contains('/') && !in_path && (
        forall|j: int| 0 <= j < i ==> !(j < present.len() && present[j])) implies resolved_command(
        cmd,
        in_path,
        present,
    ) == search_dirs()[i] + seq!['/'] + cmd by {
        lemma_first_present_skip(cmd, present, 0, i);
        if cmd.len() > 0 {
            assert(cmd[0] != '/') by {
                if cmd[0] == '/' {
                    assert(cmd.contains('/'));
                }
            }
        }
        assert(search_dirs()[i].len() > 0);
    }
    if !cmd.contains('/') && !in_path && (forall|j: int|
        0 <= j < 6 ==> !(j < present.len() && #[trigger] present[j])) {
        lemma_first_present_skip(cmd, present, 0, 6);
    }
}

/// The host checks and command bookkeeping of the tool.
pub struct SystemCommand;

impl SystemCommand {
    /// The search directories, as strings.
    fn search_dir_list() -> (v: Vec<String>)
        ensures
            views(v@) == search_dirs(),
    {
        let mut v: Vec<String> = Vec::new();
        v.push(String::from_str("/usr/local/sbin"));
        v.push(String::from_str("/usr/sbin"));
        v.push(String::from_str("/sbin"));
        v.push(String::from_str("/usr/local/bin"));
        v.push(String::from_str("/usr/bin"));
        v.push(String::from_str("/bin"));
        assert(views(v@) == search_dirs());
        v
    }

    /// The paths probed for `cmd`, one per search directory, in search order.
    pub fn search_candidates(cmd: &str) -> (v: Vec<String>)
        ensures
            v@.len() == search_dirs().len(),
            forall|i: int|
                0 <= i < v@.len() ==> (#[trigger] v@[i])@ == path_join(search_dirs()[i], cmd@),
    {
        let dirs = Self::search_dir_list();
        let mut v: Vec<String> = Vec::new();
        let mut i: usize = 0;
        while i < dirs.len()
            invariant
                views(dirs@) == search_dirs(),
                i <= dirs@.len(),
                v@.len() == i,
                forall|k: int|
                    0 <= k < i ==> (#[trigger] v@[k])@ == path_join(search_dirs()[k], cmd@),
            decreases dirs@.len() - i,
        {
            assert(dirs@[i as int]@ == search_dirs()[i as int]);
            v.push(join_path(dirs[i].as_str(), cmd));
            i = i + 1;
        }
        v
    }

    /// Settles the program path for `cmd`. `in_path` says whether `cmd` is a
    /// file in one of the `PATH` directories; `present[i]` whether the `i`-th
    /// search candidate is a file.
    pub fn resolve_command(cmd: &str, in_path: bool, present: &[bool]) -> (r: String)
        ensures
            r@ == resolved_command(cmd@, in_path, present@),
    {
        if contains_char(cmd, '/') || in_path {
            return String::from_str(cmd);
        }
        let candidates = Self::search_candidates(cmd);
        let mut i: usize = 0;
        while i < candidates.len()
            invariant
                candidates@.len() == search_dirs().len(),
                forall|k: int|
                    0 <= k < candidates@.len() ==> (#[trigger] candidates@[k])@ == path_join(
                        search_dirs()[k],
                        cmd@,
                    ),
                i <= candidates@.len(),
                !cmd@.contains('/'),
                !in_path,
                first_present(cmd@, present@, 0) == first_present(cmd@, present@, i as int),
            decreases candidates@.len() - i,
        {
            if i < present.len() && present[i] {
                assert(first_present(cmd@, present@, i as int) == path_join(
                    search_dirs()[i as int],
                    cmd@,
                ));
                return candidates[i].clone();
            }
            i = i + 1;
        }
        String::from_str(cmd)
    }

    /// The note added to a message when the program path differs from the
    /// command asked for.
    pub fn resolved_hint(original: &str, resolved: &str) -> (r: String)
        ensures
            r@ == (if original@ == resolved@ {
                Seq::<char>::empty()
            } else {
                " (resolved to: "@ + resolved@ + ")"@
            }),
    {
        if str_equal(original, resolved) {
            String::new()
        } else {
            let mut r = String::from_str(" (resolved to: ");
            r.append(resolved);
            r.append(")");
            r
        }
    }

    /// The context given when `cmd` could not be started.
    pub fn launch_failure_message(cmd: &str, args: &Vec<String>, resolved: &str) -> (r: String)
        ensures
            r@ == "Failed to execute: "@ + cmd@ + " "@ + join(views(args@), " "@) + (if cmd@
                == resolved@ {
                Seq::<char>::empty()
            } else {
                " (resolved to: "@ + resolved@ + ")"@
            }),
    {
        let mut r = String::from_str("Failed to execute: ");
        r.append(cmd);
        r.append(" ");
        let joined = join_strings(args, " ");
        r.append(joined.as_str());
        let hint = Self::resolved_hint(cmd, resolved);
        r.append(hint.as_str());
        r
    }

    /// The progress message shown while `cmd` runs.
    pub fn running_message(cmd: &str, args: &Vec<String>) -> (r: String)
        ensures
            r@ == "Running: "@ + cmd@ + " "@ + join(views(args@), " "@),
    {
        let mut r = String::from_str("Running: ");
        r.append(cmd);
        r.append(" ");
        let joined = join_strings(args, " ");
        r.append(joined.as_str());
        r
    }

    /// The verdict on a finished command: success, or the failure error.
    pub fn check_status(cmd: &str, args: &Vec<String>, success: bool) -> (r: Result<(), ForgeError>)
        ensures
            success ==> r is Ok,
            !success ==> (r matches Err(ForgeError::CommandFailed { command, args: a }) && command@
                == cmd@ && views(a@) == views(args@)),
    {
        if success {
            Ok(())
        } else {
            Err(ForgeError::CommandFailed { command: String::from_str(cmd), args: args.clone() })
        }
    }

    /// The root check on the output of `id -u`: the process runs as root when
    /// the output, decoded leniently and trimmed, is `0`.
    pub fn check_root(id_output: &[u8]) -> (r: Result<(), ForgeError>)
        ensures
            r is Ok <==> trim(utf8_lossy(id_output@)) == "0"@,
            valid_utf8(id_output@) ==> (r is Ok <==> trim(decode_utf8(id_output@)) == "0"@),
            r matches Err(e) ==> e == ForgeError::NotRoot,
    {
        let text = lossy_decode(id_output);
        let uid = trim_str(text.as_str());
        if str_equal(uid, "0") {
            Ok(())
        } else {
            Err(ForgeError::NotRoot)
        }
    }

    /// The platform check: the tool runs on Linux only.
    pub fn check_linux(is_linux: bool, os: &str) -> (r: Result<(), ForgeError>)
        ensures
            is_linux ==> r is Ok,
            !is_linux ==> (r matches Err(ForgeError::NotLinux { os: o }) && o@ == os@),
    {
        if is_linux {
            Ok(())
        } else {
            Err(ForgeError::NotLinux { os: String::from_str(os) })
        }
    }
}

/// What `String::from_utf8_lossy` makes of `bytes`.
pub uninterp spec fn utf8_lossy(bytes: Seq<u8>) -> Seq<char>;

/// `String::from_utf8_lossy`, made owned. Claimed: the result is
/// `utf8_lossy(bytes)`, and for valid UTF-8 it is the decoded text (the
/// documented behaviour); how invalid sequences are replaced is left unsaid.
#[verifier::external_body]
fn lossy_decode(bytes: &[u8]) -> (r: String)
    ensures
        r@ == utf8_lossy(bytes@),
        valid_utf8(bytes@) ==> r@ == decode_utf8(bytes@),
{
    String::from_utf8_lossy(bytes).into_owned()
}

} // verus!
