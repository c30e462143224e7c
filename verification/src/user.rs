//! The deploy user: name validation, SSH key registration and home directory lookup.

use vstd::prelude::*;
use vstd::utf8::{decode_utf8, valid_utf8};
use crate::error::{ForgeError, PatternKind};
use crate::pattern::{CompiledPattern, regex_compiles, regex_finds_match};
use crate::system::{CommandLine, join_path, path_join};
use crate::text::{
    lemma_trim_is_infix,
    contains_char,
    lemma_trim_idempotent,
    push_char,
    range_equals,
    string_from_range,
    to_chars,
    trim,
    trim_bounds,
    trim_str,
};

verus! {

/// Accepted user names: a lowercase letter or `_`, then up to 31 lowercase
/// letters, digits, `_` or `-`.
pub const USERNAME_PATTERN: &'static str = "^[a-z_][a-z0-9_-]{0,31}$";

/// Accepted SSH public keys: key type, a space, base64 data, optional comment.
pub const SSH_KEY_PATTERN: &'static str =
    r"^(ssh-rsa|ssh-ed25519|ecdsa-sha2-nistp(?:256|384|521)) [A-Za-z0-9+/]+={0,3}( [^\r\n]+)?$";

/// The names `USERNAME_PATTERN` describes, read by the regex crate's
/// documented syntax (`^`/`$` anchor the whole haystack, `[..]` are classes,
/// `{0,31}` bounds the repetition): 1 to 32 characters, the first a lowercase
/// ASCII letter or `_`, the rest lowercase ASCII letters, digits, `_` or `-`.
pub open spec fn username_form(s: Seq<char>) -> bool {
    &&& 1 <= s.len() <= 32
    &&& ('a' <= s[0] && s[0] <= 'z') || s[0] == '_'
    &&& forall|i: int|
        1 <= i < s.len() ==> ('a' <= #[trigger] s[i] && s[i] <= 'z') || ('0' <= s[i] && s[i]
            <= '9') || s[i] == '_' || s[i] == '-'
}

/// The key types `SSH_KEY_PATTERN` admits.
pub open spec fn ssh_key_type(t: Seq<char>) -> bool {
    ||| t == "ssh-rsa"@
    ||| t == "ssh-ed25519"@
    ||| t == "ecdsa-sha2-nistp256"@
    ||| t == "ecdsa-sha2-nistp384"@
    ||| t == "ecdsa-sha2-nistp521"@
}

/// One or more characters of `[A-Za-z0-9+/]`.
pub open spec fn base64_body(d: Seq<char>) -> bool {
    &&& d.len() >= 1
    &&& forall|i: int|
        0 <= i < d.len() ==> ('A' <= #[trigger] d[i] && d[i] <= 'Z') || ('a' <= d[i] && d[i]
            <= 'z') || ('0' <= d[i] && d[i] <= '9') || d[i] == '+' || d[i] == '/'
}

/// Zero to three `=`.
pub open spec fn base64_padding(e: Seq<char>) -> bool {
    e.len() <= 3 && forall|i: int| 0 <= i < e.len() ==> #[trigger] e[i] == '='
}

/// Nothing, or a space followed by one or more characters other than `\r`, `\n`.
pub open spec fn key_comment(c: Seq<char>) -> bool {
    c.len() == 0 || (c.len() >= 2 && c[0] == ' ' && forall|i: int|
        1 <= i < c.len() ==> #[trigger] c[i] != '\r' && c[i] != '\n')
}

/// The keys `SSH_KEY_PATTERN` describes, read by the regex crate's documented
/// syntax: a key type, a space, base64 data with up to three `=`, and an
/// optional comment, making up the whole haystack.
pub open spec fn ssh_key_form(k: Seq<char>) -> bool {
    exists|t: Seq<char>, d: Seq<char>, e: Seq<char>, c: Seq<char>|
        #![trigger ssh_key_type(t), base64_body(d), base64_padding(e), key_comment(c)]
        k == t + seq![' '] + d + e + c && ssh_key_type(t) && base64_body(d) && base64_padding(e)
            && key_comment(c)
}

/// Whether `USERNAME_PATTERN` compiles and accepts `name`.
pub open spec fn username_accepted(name: Seq<char>) -> bool {
    regex_compiles(USERNAME_PATTERN@) && regex_finds_match(USERNAME_PATTERN@, name)
}

/// `c[i..j]` is one of the lines that `str::lines` yields: it starts the text
/// or follows a `\n`, holds no `\n`, and ends at a `\n` or at the end of a
/// non-empty last line.
pub open spec fn is_line_span(c: Seq<char>, i: int, j: int) -> bool {
    &&& 0 <= i <= j <= c.len()
    &&& i == 0 || c[i - 1] == '\n'
    &&& (j < c.len() && c[j] == '\n') || (j == c.len() && i < c.len())
    &&& forall|k: int| i <= k < j ==> c[k] != '\n'
}

/// The text of the line spanning `c[i..j]`: a `\r` before its `\n` is dropped.
pub open spec fn line_text(c: Seq<char>, i: int, j: int) -> Seq<char> {
    if j < c.len() && i < j && c[j - 1] == '\r' {
        c.subrange(i, j - 1)
    } else {
        c.subrange(i, j)
    }
}

/// Some line of `c`, trimmed, equals `key`.
pub open spec fn has_line(c: Seq<char>, key: Seq<char>) -> bool {
    exists|i: int, j: int| #[trigger] is_line_span(c, i, j) && trim(line_text(c, i, j)) == key
}

/// `c` with `key` added as a new last line, after a `\n` that ends the
/// existing last line if it lacks one.
pub open spec fn with_key_appended(c: Seq<char>, key: Seq<char>) -> Seq<char> {
    let base = if c.len() > 0 && c.last() != '\n' {
        c.push('\n')
    } else {
        c
    };
    base + key.push('\n')
}

/// What recording the single-line key `k` in a file holding `content` gives,
/// once the regex engine has judged it: `pattern_verdict` is `None` when
/// `SSH_KEY_PATTERN` was rejected, else whether the pattern matches `k`.
/// `Ok(None)` means the key is already a line of the file; `Ok(Some(c))`
/// gives the new content.
pub open spec fn key_record(k: Seq<char>, content: Seq<char>, pattern_verdict: Option<bool>) -> Result<
    Option<Seq<char>>,
    ForgeError,
> {
    match pattern_verdict {
        None => Err(ForgeError::PatternRejected { pattern: PatternKind::SshKey }),
        Some(false) => Err(ForgeError::SshKeyFormat),
        Some(true) => if has_line(content, k) {
            Ok(None)
        } else {
            Ok(Some(with_key_appended(content, k)))
        },
    }
}

/// What the regex engine says of `k` and `SSH_KEY_PATTERN`.
pub open spec fn ssh_key_pattern_verdict(k: Seq<char>) -> Option<bool> {
    if regex_compiles(SSH_KEY_PATTERN@) {
        Some(regex_finds_match(SSH_KEY_PATTERN@, k))
    } else {
        None
    }
}

/// What registering `key` in an `authorized_keys` file holding `content`
/// does: the key is trimmed and must be a single line; then it is recorded.
pub open spec fn ssh_key_registration(key: Seq<char>, content: Seq<char>) -> Result<
    Option<Seq<char>>,
    ForgeError,
> {
    let k = trim(key);
    if k.contains('\n') || k.contains('\r') {
        Err(ForgeError::SshKeyMultiline)
    } else {
        key_record(k, content, ssh_key_pattern_verdict(k))
    }
}

/// The result of registering an SSH key.
#[derive(Debug, PartialEq, Eq)]
pub enum SshKeyUpdate {
    /// The key is already a line of the file; nothing to write.
    AlreadyPresent,
    /// The file is to be written with this content.
    Updated { content: String },
}

impl View for SshKeyUpdate {
    type V = Option<Seq<char>>;

    open spec fn view(&self) -> Option<Seq<char>> {
        match self {
            SshKeyUpdate::AlreadyPresent => None,
            SshKeyUpdate::Updated { content } => Some(content@),
        }
    }
}

proof fn lemma_appended_key_is_line(c: Seq<char>, k: Seq<char>)
    requires
        !k.contains('\n'),
        !k.contains('\r'),
        trim(k) == k,
    ensures
        has_line(with_key_appended(c, k), k),
        with_key_appended(c, k).subrange(0, c.len() as int) == c,
{
    let base = if c.len() > 0 && c.last() != '\n' {
        c.push('\n')
    } else {
        c
    };
    let u = with_key_appended(c, k);
    assert(u == base + k.push('\n'));
    let i = base.len() as int;
    let j = i + k.len();
    assert forall|t: int| i <= t < j implies u[t] != '\n' by {
        assert(u[t] == k[t - i]);
    }
    if i > 0 {
        assert(u[i - 1] == base.last());
    }
    assert(u[j] == '\n');
    if k.len() > 0 {
        assert(u[j - 1] == k.last());
    }
    assert(u.subrange(i, j) == k);
    assert(line_text(u, i, j) == k);
    assert(is_line_span(u, i, j));
    assert(u.subrange(0, c.len() as int) == c);
}

/// A key that registration accepts is a line of the file afterwards: either
/// it was already there, or the new content keeps the old content as its
/// beginning and ends with the key as its last line.
pub proof fn law_registered_key_is_present(key: Seq<char>, content: Seq<char>)
    ensures
        ssh_key_registration(key, content) == Ok::<Option<Seq<char>>, ForgeError>(None)
            ==> has_line(content, trim(key)),
        ssh_key_registration(key, content) matches Ok(Some(updated)) ==> {
            &&& has_line(updated, trim(key))
            &&& updated.subrange(0, content.len() as int) == content
        },
{
    if ssh_key_registration(key, content) is Ok {
        lemma_trim_idempotent(key);
        if !has_line(content, trim(key)) {
            lemma_appended_key_is_line(content, trim(key));
        }
    }
}

/// What registration decides, by case: a trimmed key holding `\n` or `\r` is
/// refused as multi-line; otherwise a rejected pattern, then a key the pattern
/// does not accept, are refused; an accepted key is either found present or
/// appended, and the new content is exactly the old one, a `\n` when the old
/// content is non-empty and does not end with one, the trimmed key, and `\n`.
pub proof fn law_registration_cases(key: Seq<char>, content: Seq<char>)
    ensures
        trim(key).contains('\n') || trim(key).contains('\r') ==> ssh_key_registration(key, content)
            == Err::<Option<Seq<char>>, ForgeError>(ForgeError::SshKeyMultiline),
        !trim(key).contains('\n') && !trim(key).contains('\r') && !regex_compiles(SSH_KEY_PATTERN@)
            ==> ssh_key_registration(key, content) == Err::<Option<Seq<char>>, ForgeError>(
            ForgeError::PatternRejected { pattern: PatternKind::SshKey },
        ),
        !trim(key).contains('\n') && !trim(key).contains('\r') && regex_compiles(SSH_KEY_PATTERN@)
            && !regex_finds_match(SSH_KEY_PATTERN@, trim(key)) ==> ssh_key_registration(key, content)
            == Err::<Option<Seq<char>>, ForgeError>(ForgeError::SshKeyFormat),
        ssh_key_registration(key, content) matches Ok(Some(updated)) ==> updated == content + (if content.len()
            > 0 && content.last() != '\n' {
            seq!['\n']
        } else {
            Seq::<char>::empty()
        }) + trim(key) + seq!['\n'],
{
    if let Ok(Some(updated)) = ssh_key_registration(key, content) {
        let sep = if content.len() > 0 && content.last() != '\n' {
            seq!['\n']
        } else {
            Seq::<char>::empty()
        };
        assert(updated == content + sep + trim(key) + seq!['\n']);
    }
}

/// A key already standing on a line of the file, anywhere (the first line
/// included, padded with whitespace or not), is found: registration leaves the
/// file alone. The line is `l` (no `\n`, not ending in `\r`, trimming to the
/// key); it starts the file or follows a `\n`, and it ends the file (when
/// non-empty) or is followed by a `\n`.
pub proof fn law_registration_finds_line(
    key: Seq<char>,
    before: Seq<char>,
    l: Seq<char>,
    after: Seq<char>,
)
    requires
        !trim(key).contains('\n'),
        !trim(key).contains('\r'),
        ssh_key_pattern_verdict(trim(key)) == Some(true),
        trim(l) == trim(key),
        !l.contains('\n'),
        l.len() == 0 || l.last() != '\r',
        before.len() == 0 || before.last() == '\n',
        (after.len() > 0 && after[0] == '\n') || (after.len() == 0 && l.len() > 0),
    ensures
        ssh_key_registration(key, before + l + after) == Ok::<Option<Seq<char>>, ForgeError>(None),
{
    let c = before + l + after;
    let i = before.len() as int;
    let j = i + l.len();
    assert forall|t: int| i <= t < j implies c[t] != '\n' by {
        assert(c[t] == l[t - i]);
        if l[t - i] == '\n' {
            assert(l.contains('\n'));
        }
    }
    if i > 0 {
        assert(c[i - 1] == before.last());
    }
    if after.len() > 0 {
        assert(c[j] == after[0]);
    }
    if j > i {
        assert(c[j - 1] == l.last());
    }
    assert(c.subrange(i, j) == l);
    assert(line_text(c, i, j) == l);
    assert(is_line_span(c, i, j));
}

/// Registration says the key is already there only when the file really holds
/// it: the trimmed key occurs in the file's text.
pub proof fn law_registration_present_means_contained(key: Seq<char>, content: Seq<char>)
    ensures
        ssh_key_registration(key, content) == Ok::<Option<Seq<char>>, ForgeError>(None) ==> exists|
            a: int,
        |
            0 <= a && a + trim(key).len() <= content.len() && #[trigger] content.subrange(
                a,
                a + trim(key).len(),
            ) == trim(key),
{
    if ssh_key_registration(key, content) == Ok::<Option<Seq<char>>, ForgeError>(None) {
        let k = trim(key);
        assert(has_line(content, k));
        let (i, j) = choose|i: int, j: int|
            #[trigger] is_line_span(content, i, j) && trim(line_text(content, i, j)) == k;
        let x = line_text(content, i, j);
        let hi = if j < content.len() && i < j && content[j - 1] == '\r' {
            j - 1
        } else {
            j
        };
        assert(x == content.subrange(i, hi));
        lemma_trim_is_infix(x);
        let b = choose|b: int|
            0 <= b && b + trim(x).len() <= x.len() && #[trigger] x.subrange(b, b + trim(x).len())
                == trim(x);
        assert(content.subrange(i + b, i + b + k.len()) == x.subrange(b, b + k.len()));
    }
}

/// Registering a key is idempotent: registering it again in the content that
/// the first registration produced finds it already present.
pub proof fn law_ssh_key_registration_idempotent(key: Seq<char>, content: Seq<char>)
    ensures
        ssh_key_registration(key, content) matches Ok(Some(updated)) ==> ssh_key_registration(
            key,
            updated,
        ) == Ok::<Option<Seq<char>>, ForgeError>(None),
{
    law_registered_key_is_present(key, content);
}

/// The `split(':')`-field of `s` before its first `:`.
pub open spec fn first_field(s: Seq<char>) -> Seq<char>
    decreases s.len(),
{
    if s.len() == 0 || s[0] == ':' {
        Seq::empty()
    } else {
        seq![s[0]] + first_field(s.drop_first())
    }
}

/// What follows the first `:` of `s`, if any.
pub open spec fn after_first_colon(s: Seq<char>) -> Option<Seq<char>>
    decreases s.len(),
{
    if s.len() == 0 {
        None
    } else if s[0] == ':' {
        Some(s.drop_first())
    } else {
        after_first_colon(s.drop_first())
    }
}

/// `s.split(':').nth(n)`.
pub open spec fn nth_field(s: Seq<char>, n: nat) -> Option<Seq<char>>
    decreases n,
{
    if n == 0 {
        Some(first_field(s))
    } else {
        match after_first_colon(s) {
            None => None,
            Some(rest) => nth_field(rest, (n - 1) as nat),
        }
    }
}

/// The home directory of a passwd entry: its sixth `:`-field once the entry
/// is trimmed, when that field exists and is not empty.
pub open spec fn passwd_home(entry: Seq<char>) -> Option<Seq<char>> {
    match nth_field(trim(entry), 5) {
        Some(f) => if f.len() > 0 {
            Some(f)
        } else {
            None
        },
        None => None,
    }
}

proof fn lemma_first_field(t: Seq<char>, q: int)
    requires
        0 <= q <= t.len(),
        forall|i: int| 0 <= i < q ==> t[i] != ':',
        q == t.len() || t[q] == ':',
    ensures
        first_field(t) == t.subrange(0, q),
    decreases q,
{
    if q > 0 {
        lemma_first_field(t.drop_first(), q - 1);
        assert(t.subrange(0, q) == seq![t[0]] + t.drop_first().subrange(0, q - 1));
    }
}

proof fn lemma_after_first_colon(t: Seq<char>, q: int)
    requires
        0 <= q <= t.len(),
        forall|i: int| 0 <= i < q ==> t[i] != ':',
    ensures
        q < t.len() && t[q] == ':' ==> after_first_colon(t) == Some(t.subrange(q + 1, t.len() as int)),
        q == t.len() ==> after_first_colon(t) is None,
    decreases q,
{
    if q > 0 {
        lemma_after_first_colon(t.drop_first(), q - 1);
        if q < t.len() {
            assert(t.drop_first().subrange(q, t.drop_first().len() as int) == t.subrange(
                q + 1,
                t.len() as int,
            ));
        }
    } else if q < t.len() {
        assert(t.drop_first() == t.subrange(1, t.len() as int));
    }
}

/// `nth_field` is `split(':').nth(n)`, empty fields included: a text with no
/// `:` is its only field; a field followed by `:` is field 0, and the fields
/// after the `:` come next, whatever they hold (an empty field too).
pub proof fn law_field_split(f: Seq<char>, t: Seq<char>, n: nat)
    requires
        !f.contains(':'),
    ensures
        nth_field(f, 0) == Some(f),
        nth_field(f, n + 1) is None,
        nth_field(f + seq![':'] + t, 0) == Some(f),
        nth_field(f + seq![':'] + t, n + 1) == nth_field(t, n),
{
    assert forall|i: int| 0 <= i < f.len() implies f[i] != ':' by {
        if f[i] == ':' {
            assert(f.contains(':'));
        }
    }
    lemma_first_field(f, f.len() as int);
    assert(f.subrange(0, f.len() as int) == f);
    lemma_after_first_colon(f, f.len() as int);
    let u = f + seq![':'] + t;
    assert forall|i: int| 0 <= i < f.len() implies u[i] != ':' by {
        assert(u[i] == f[i]);
    }
    lemma_first_field(u, f.len() as int);
    assert(u.subrange(0, f.len() as int) == f);
    lemma_after_first_colon(u, f.len() as int);
    assert(u.subrange(f.len() as int + 1, u.len() as int) == t);
}

/// The home directory of a passwd entry `f0:f1:f2:f3:f4:f5<rest>` (six
/// colon-free fields, then nothing or a `:` and more, no surrounding
/// whitespace) is `f5`, every field counted even when empty; an empty `f5`
/// gives no home directory.
pub proof fn law_passwd_home(
    f0: Seq<char>,
    f1: Seq<char>,
    f2: Seq<char>,
    f3: Seq<char>,
    f4: Seq<char>,
    f5: Seq<char>,
    rest: Seq<char>,
)
    requires
        !f0.contains(':') && !f1.contains(':') && !f2.contains(':') && !f3.contains(':')
            && !f4.contains(':') && !f5.contains(':'),
        rest.len() == 0 || rest[0] == ':',
        trim(f0 + seq![':'] + f1 + seq![':'] + f2 + seq![':'] + f3 + seq![':'] + f4 + seq![':'] + f5
            + rest) == f0 + seq![':'] + f1 + seq![':'] + f2 + seq![':'] + f3 + seq![':'] + f4
            + seq![':'] + f5 + rest,
    ensures
        passwd_home(
            f0 + seq![':'] + f1 + seq![':'] + f2 + seq![':'] + f3 + seq![':'] + f4 + seq![':'] + f5
                + rest,
        ) == (if f5.len() > 0 {
            Some(f5)
        } else {
            None
        }),
{
    let e5 = f5 + rest;
    let e4 = f4 + seq![':'] + e5;
    let e3 = f3 + seq![':'] + e4;
    let e2 = f2 + seq![':'] + e3;
    let e1 = f1 + seq![':'] + e2;
    let e0 = f0 + seq![':'] + e1;
    assert(e0 == f0 + seq![':'] + f1 + seq![':'] + f2 + seq![':'] + f3 + seq![':'] + f4 + seq![':']
        + f5 + rest);
    law_field_split(f0, e1, 4);
    law_field_split(f1, e2, 3);
    law_field_split(f2, e3, 2);
    law_field_split(f3, e4, 1);
    law_field_split(f4, e5, 0);
    if rest.len() == 0 {
        assert(e5 == f5);
        law_field_split(f5, rest, 0);
    } else {
        assert(e5 == f5 + seq![':'] + rest.drop_first());
        law_field_split(f5, rest.drop_first(), 0);
    }
}

/// `String::from_utf8`. Claimed, as documented: it succeeds exactly on valid
/// UTF-8, and then holds the decoded text.
#[verifier::external_body]
fn utf8_string(bytes: Vec<u8>) -> (r: Option<String>)
    ensures
        r is Some <==> valid_utf8(bytes@),
        r matches Some(s) ==> s@ == decode_utf8(bytes@),
{
    String::from_utf8(bytes).ok()
}

/// The span of the `n`-th `:`-field of `c`, when there is one.
fn field_bounds(c: &Vec<char>, n: usize) -> (r: Option<(usize, usize)>)
    ensures
        match nth_field(c@, n as nat) {
            Some(f) => r matches Some((a, b)) && a <= b <= c@.len() && f == c@.subrange(
                a as int,
                b as int,
            ),
            None => r is None,
        },
{
    let len = c.len();
    let mut start: usize = 0;
    let mut k: usize = 0;
    let mut p: usize = 0;
    assert(c@.subrange(0, len as int) == c@);
    while p < len
        invariant
            len == c@.len(),
            k <= n,
            start <= p <= len,
            forall|i: int| start <= i < p ==> c@[i] != ':',
            nth_field(c@, n as nat) == nth_field(
                c@.subrange(start as int, len as int),
                (n - k) as nat,
            ),
        decreases len - p,
    {
        if c[p] == ':' {
            let ghost t = c@.subrange(start as int, len as int);
            assert forall|i: int| 0 <= i < p - start implies t[i] != ':' by {
                assert(t[i] == c@[start + i]);
            }
            if k == n {
                proof {
                    lemma_first_field(t, p - start);
                    assert(t.subrange(0, p - start) == c@.subrange(start as int, p as int));
                }
                return Some((start, p));
            }
            proof {
                lemma_after_first_colon(t, p - start);
                assert(t.subrange(p - start + 1, t.len() as int) == c@.subrange(
                    p + 1,
                    len as int,
                ));
            }
            k = k + 1;
            start = p + 1;
        }
        p = p + 1;
    }
    let ghost t = c@.subrange(start as int, len as int);
    assert forall|i: int| 0 <= i < t.len() implies t[i] != ':' by {
        assert(t[i] == c@[start + i]);
    }
    if k == n {
        proof {
            lemma_first_field(t, t.len() as int);
            assert(t.subrange(0, t.len() as int) == t);
        }
        Some((start, len))
    } else {
        proof {
            lemma_after_first_colon(t, t.len() as int);
        }
        None
    }
}

/// Whether some line of `c`, trimmed, equals `key`.
fn find_line(c: &Vec<char>, key: &Vec<char>) -> (b: bool)
    ensures
        b == has_line(c@, key@),
{
    let n = c.len();
    let mut start: usize = 0;
    let mut p: usize = 0;
    while p < n
        invariant
            n == c@.len(),
            start <= p <= n,
            start == 0 || c@[start - 1] == '\n',
            forall|k: int| start <= k < p ==> c@[k] != '\n',
            forall|i: int, j: int|
                #[trigger] is_line_span(c@, i, j) && j < p ==> trim(line_text(c@, i, j)) != key@,
        decreases n - p,
    {
        if c[p] == '\n' {
            if line_matches(c, start, p, key) {
                assert(is_line_span(c@, start as int, p as int));
                return true;
            }
            assert forall|i: int, j: int|
                #[trigger] is_line_span(c@, i, j) && j < p + 1 implies trim(line_text(c@, i, j))
                != key@ by {
                if j == p {
                    if i < start {
                        assert(c@[start - 1] == '\n');
                    } else if i > start {
                        assert(c@[i - 1] == '\n');
                    }
                }
            }
            start = p + 1;
        }
        p = p + 1;
    }
    if start < n && line_matches(c, start, n, key) {
        assert(is_line_span(c@, start as int, n as int));
        return true;
    }
    assert forall|i: int, j: int| #[trigger] is_line_span(c@, i, j) implies trim(
        line_text(c@, i, j),
    ) != key@ by {
        if j == n {
            if i < start {
                assert(c@[start - 1] == '\n');
            } else if i > start {
                assert(c@[i - 1] == '\n');
            }
        }
    }
    false
}

/// Whether the line spanning `c[i..j]`, trimmed, equals `key`.
fn line_matches(c: &Vec<char>, i: usize, j: usize, key: &Vec<char>) -> (b: bool)
    requires
        i <= j <= c@.len(),
    ensures
        b == (trim(line_text(c@, i as int, j as int)) == key@),
{
    let hi = if j < c.len() && i < j && c[j - 1] == '\r' {
        j - 1
    } else {
        j
    };
    let (a, b) = trim_bounds(c, i, hi);
    range_equals(c, a, b, key)
}

/// What creating the deploy user takes: the commands to run, in order, and
/// the notice shown afterwards.
pub struct UserCreation {
    pub commands: Vec<CommandLine>,
    pub notice: String,
}

/// The deploy user managed by the tool.
pub struct DeployUser;

impl DeployUser {
    /// Checks a user name against `USERNAME_PATTERN`.
    pub fn validate_username(username: &str) -> (r: Result<(), ForgeError>)
        ensures
            r is Ok <==> username_accepted(username@),
            regex_compiles(USERNAME_PATTERN@) ==> (r is Ok <==> username_form(username@)),
            !regex_compiles(USERNAME_PATTERN@) ==> r == Err::<(), ForgeError>(
                ForgeError::PatternRejected { pattern: PatternKind::Username },
            ),
            regex_compiles(USERNAME_PATTERN@) && !regex_finds_match(USERNAME_PATTERN@, username@)
                ==> (r matches Err(ForgeError::InvalidUsername { name }) && name@ == username@),
    {
        let verdict = match CompiledPattern::compile(USERNAME_PATTERN) {
            Ok(p) => Some(p.is_match(username)),
            Err(_) => None,
        };
        Self::username_verdict(username, verdict)
    }

    /// The verdict on `username` once the regex engine has judged it:
    /// `pattern_verdict` is `None` when `USERNAME_PATTERN` was rejected, else
    /// whether the pattern matches the name.
    pub fn username_verdict(username: &str, pattern_verdict: Option<bool>) -> (r: Result<
        (),
        ForgeError,
    >)
        ensures
            match pattern_verdict {
                None => r == Err::<(), ForgeError>(
                    ForgeError::PatternRejected { pattern: PatternKind::Username },
                ),
                Some(true) => r is Ok,
                Some(false) => r matches Err(ForgeError::InvalidUsername { name }) && name@
                    == username@,
            },
    {
        match pattern_verdict {
            None => Err(ForgeError::PatternRejected { pattern: PatternKind::Username }),
            Some(true) => Ok(()),
            Some(false) => Err(ForgeError::InvalidUsername { name: String::from_str(username) }),
        }
    }

    /// Registers `key` in an `authorized_keys` file whose current content is
    /// `existing`: the trimmed key must be a single line of an accepted form;
    /// it is added as a new line unless a line of the file already holds it.
    pub fn add_ssh_key(key: &str, existing: &str) -> (r: Result<SshKeyUpdate, ForgeError>)
        ensures
            match r {
                Ok(u) => ssh_key_registration(key@, existing@) == Ok::<_, ForgeError>(u@),
                Err(e) => ssh_key_registration(key@, existing@) == Err::<Option<Seq<char>>, _>(e),
            },
            !trim(key@).contains('\n') && !trim(key@).contains('\r') && regex_compiles(
                SSH_KEY_PATTERN@,
            ) ==> (r matches Err(ForgeError::SshKeyFormat) <==> !ssh_key_form(trim(key@))),
    {
        let k = trim_str(key);
        if contains_char(k, '\n') || contains_char(k, '\r') {
            return Err(ForgeError::SshKeyMultiline);
        }
        let verdict = match CompiledPattern::compile(SSH_KEY_PATTERN) {
            Ok(p) => Some(p.is_match(k)),
            Err(_) => None,
        };
        Self::record_ssh_key(k, existing, verdict)
    }

    /// Records the single-line key `key` in a file holding `existing`, given
    /// the regex engine's verdict on it (`None` when `SSH_KEY_PATTERN` was
    /// rejected): the key is added as a new last line unless a line of the
    /// file, trimmed, already equals it.
    pub fn record_ssh_key(key: &str, existing: &str, pattern_verdict: Option<bool>) -> (r: Result<
        SshKeyUpdate,
        ForgeError,
    >)
        ensures
            match r {
                Ok(u) => key_record(key@, existing@, pattern_verdict) == Ok::<_, ForgeError>(u@),
                Err(e) => key_record(key@, existing@, pattern_verdict) == Err::<
                    Option<Seq<char>>,
                    _,
                >(e),
            },
    {
        match pattern_verdict {
            None => {
                return Err(ForgeError::PatternRejected { pattern: PatternKind::SshKey });
            },
            Some(false) => {
                return Err(ForgeError::SshKeyFormat);
            },
            Some(true) => {},
        }
        let kc = to_chars(key);
        let cc = to_chars(existing);
        if find_line(&cc, &kc) {
            return Ok(SshKeyUpdate::AlreadyPresent);
        }
        let mut out = String::from_str(existing);
        if cc.len() > 0 && cc[cc.len() - 1] != '\n' {
            push_char(&mut out, '\n');
        }
        out.append(key);
        push_char(&mut out, '\n');
        Ok(SshKeyUpdate::Updated { content: out })
    }

    /// The notice shown when no SSH key is registered.
    pub fn no_ssh_key_notice() -> (r: String)
        ensures
            r@ == "⚠ No SSH key provided - you can add it later"@,
    {
        String::from_str("⚠ No SSH key provided - you can add it later")
    }

    /// The home directory of `username` from the result of `getent passwd
    /// username`: whether it succeeded and what it printed.
    pub fn find_home_dir(username: &str, lookup_succeeded: bool, output: Vec<u8>) -> (r: Result<
        String,
        ForgeError,
    >)
        ensures
            !lookup_succeeded ==> (r matches Err(ForgeError::HomeDirLookupFailed { user })
                && user@ == username@),
            lookup_succeeded && !valid_utf8(output@) ==> r == Err::<String, ForgeError>(
                ForgeError::PasswdNotUtf8,
            ),
            lookup_succeeded && valid_utf8(output@) ==> match passwd_home(decode_utf8(output@)) {
                Some(h) => r matches Ok(s) && s@ == h,
                None => r == Err::<String, ForgeError>(ForgeError::MissingHomeDir),
            },
    {
        if !lookup_succeeded {
            return Err(ForgeError::HomeDirLookupFailed { user: String::from_str(username) });
        }
        let ghost bytes = output@;
        let entry = match utf8_string(output) {
            Some(s) => s,
            None => {
                return Err(ForgeError::PasswdNotUtf8);
            },
        };
        let trimmed = trim_str(entry.as_str());
        let chars = to_chars(trimmed);
        match field_bounds(&chars, 5) {
            Some((a, b)) => {
                if a < b {
                    Ok(string_from_range(&chars, a, b))
                } else {
                    Err(ForgeError::MissingHomeDir)
                }
            },
            None => Err(ForgeError::MissingHomeDir),
        }
    }

    /// The initial password of a new deploy user: its name followed by `123`.
    pub fn initial_password(username: &str) -> (r: String)
        ensures
            r@ == username@ + "123"@,
    {
        let mut r = String::from_str(username);
        r.append("123");
        r
    }

    /// The commands that create `username` with a home directory and a bash
    /// login shell, then set its password to `<username>123` by feeding
    /// `username:<username>123` to `chpasswd`.
    pub fn creation_commands(username: &str) -> (v: Vec<CommandLine>)
        ensures
            v@.len() == 2,
            v@[0]@ == ("useradd"@, seq!["-m"@, "-s"@, "/bin/bash"@, username@], None::<Seq<char>>),
            v@[1]@ == ("chpasswd"@, Seq::<Seq<char>>::empty(), Some(
                username@ + ":"@ + username@ + "123"@ + "\n"@,
            )),
    {
        let mut add = CommandLine::new("useradd");
        add.arg("-m");
        add.arg("-s");
        add.arg("/bin/bash");
        add.arg(username);
        let mut line = String::from_str(username);
        line.append(":");
        let password = Self::initial_password(username);
        line.append(password.as_str());
        line.append("\n");
        let mut set_password = CommandLine::new("chpasswd");
        set_password.input(line);
        let mut v = Vec::new();
        v.push(add);
        v.push(set_password);
        v
    }

    /// Creating `username`, given whether `id username` found it: nothing to
    /// run when it exists; otherwise `creation_commands`.
    pub fn create(username: &str, exists: bool) -> (c: UserCreation)
        ensures
            exists ==> c.commands@.len() == 0 && c.notice@ == "✓ User '"@ + username@
                + "' already exists"@,
            !exists ==> {
                &&& c.commands@.len() == 2
                &&& c.commands@[0]@ == (
                    "useradd"@,
                    seq!["-m"@, "-s"@, "/bin/bash"@, username@],
                    None::<Seq<char>>,
                )
                &&& c.commands@[1]@ == ("chpasswd"@, Seq::<Seq<char>>::empty(), Some(
                    username@ + ":"@ + username@ + "123"@ + "\n"@,
                ))
                &&& c.notice@ == "✓ Created user '"@ + username@ + "'"@
            },
    {
        if exists {
            let mut notice = String::from_str("✓ User '");
            notice.append(username);
            notice.append("' already exists");
            UserCreation { commands: Vec::new(), notice }
        } else {
            let mut notice = String::from_str("✓ Created user '");
            notice.append(username);
            notice.append("'");
            UserCreation { commands: Self::creation_commands(username), notice }
        }
    }

    /// `user:user`, the owner argument given to `chown`.
    pub fn owner_spec(username: &str) -> (r: String)
        ensures
            r@ == username@ + ":"@ + username@,
    {
        let mut r = String::from_str(username);
        r.append(":");
        r.append(username);
        r
    }

    /// Hands `path` and everything below it to `username` and its group.
    pub fn chown_command(username: &str, path: &str) -> (c: CommandLine)
        ensures
            c@ == ("chown"@, seq!["-R"@, username@ + ":"@ + username@, path@], None::<Seq<char>>),
    {
        let owner = Self::owner_spec(username);
        let mut c = CommandLine::new("chown");
        c.arg("-R");
        c.arg(owner.as_str());
        c.arg(path);
        c
    }

    /// The `.ssh` directory under `home`.
    pub fn ssh_dir(home: &str) -> (r: String)
        ensures
            r@ == path_join(home@, ".ssh"@),
    {
        join_path(home, ".ssh")
    }

    /// The `authorized_keys` file under `home`.
    pub fn authorized_keys_path(home: &str) -> (r: String)
        ensures
            r@ == path_join(path_join(home@, ".ssh"@), "authorized_keys"@),
    {
        let dir = Self::ssh_dir(home);
        join_path(dir.as_str(), "authorized_keys")
    }

    /// The permission fixes of an SSH setup, in the order they run: the
    /// directory to 700, the key file to 600, both to the user.
    pub fn ssh_permission_commands(username: &str, ssh_dir: &str, keys_file: &str) -> (v: Vec<
        CommandLine,
    >)
        ensures
            v@.len() == 3,
            v@[0]@ == ("chmod"@, seq!["700"@, ssh_dir@], None::<Seq<char>>),
            v@[1]@ == ("chmod"@, seq!["600"@, keys_file@], None::<Seq<char>>),
            v@[2]@ == ("chown"@, seq!["-R"@, username@ + ":"@ + username@, ssh_dir@], None::<Seq<char>>),
    {
        let mut dir_mode = CommandLine::new("chmod");
        dir_mode.arg("700");
        dir_mode.arg(ssh_dir);
        let mut file_mode = CommandLine::new("chmod");
        file_mode.arg("600");
        file_mode.arg(keys_file);
        let own = Self::chown_command(username, ssh_dir);
        let mut v = Vec::new();
        v.push(dir_mode);
        v.push(file_mode);
        v.push(own);
        v
    }
}

} // verus!
