//! Shell preparation: the interpreter attribute and path, the generated
//! rc/exec script, shell escaping of command arguments, and the
//! clean-environment policy.

use std::borrow::Cow;
use vstd::prelude::*;

use crate::strutil;

verus! {

/// The attribute the interactive interpreter is built from, for a target
/// platform.
pub fn bash_attr(system: &str) -> (r: String)
    ensures
        r@ == "nixpkgs#legacyPackages."@ + system@ + ".bashInteractive.out"@,
{
    let mut out = String::from_str("nixpkgs#legacyPackages.");
    out.append(system);
    out.append(".bashInteractive.out");
    out
}

/// `s` without trailing newline characters.
pub open spec fn trim_end_newlines(s: Seq<char>) -> Seq<char>
    decreases s.len(),
{
    if s.len() > 0 && s.last() == '\n' {
        trim_end_newlines(s.drop_last())
    } else {
        s
    }
}

/// The interpreter binary under the built output: the build tool's output
/// path with trailing newlines removed and `/bin/bash` appended.
pub fn bash_path_from_output(stdout: &str) -> (r: String)
    ensures
        r@ == trim_end_newlines(stdout@) + "/bin/bash"@,
{
    let chars = strutil::chars_of(stdout);
    let n = chars.len();
    let mut end: usize = n;
    proof {
        assert(chars@.subrange(0, n as int) =~= chars@);
    }
    while end > 0
        invariant
            end <= n,
            n == chars@.len(),
            chars@ == stdout@,
            trim_end_newlines(chars@.subrange(0, end as int)) == trim_end_newlines(chars@),
        ensures
            end <= n,
            n == chars@.len(),
            trim_end_newlines(chars@.subrange(0, end as int)) == trim_end_newlines(chars@),
            end == 0 || chars@[end - 1] != '\n',
        decreases end,
    {
        let ghost part = chars@.subrange(0, end as int);
        proof {
            assert(part.last() == chars@[end - 1]);
            assert(part.drop_last() =~= chars@.subrange(0, end - 1));
        }
        if chars[end - 1] != '\n' {
            break ;
        }
        end = end - 1;
    }
    let kept = strutil::subvec(&chars, 0, end);
    proof {
        let part = chars@.subrange(0, end as int);
        if end == 0 {
            assert(part =~= Seq::<char>::empty());
        } else {
            assert(part.last() == chars@[end - 1]);
        }
        assert(trim_end_newlines(part) == part);
    }
    let mut out = strutil::string_of(&kept);
    out.append("/bin/bash");
    out
}

/// Whether shell escaping leaves a character untouched: letters, digits
/// and a small set of punctuation.
pub open spec fn sh_whitelisted(c: char) -> bool {
    ('a' <= c && c <= 'z') || ('A' <= c && c <= 'Z') || ('0' <= c && c <= '9') || c == '-' || c
        == '_' || c == '=' || c == '/' || c == ',' || c == '.' || c == '+'
}

/// How one character is rendered inside a single-quoted escape: a quote or
/// a bang is closed off, backslash-escaped and reopened; anything else
/// passes through.
pub open spec fn sh_escaped_char(c: char) -> Seq<char> {
    if c == '\'' || c == '!' {
        seq!['\'', '\\', c, '\'']
    } else {
        seq![c]
    }
}

/// The body of a single-quoted escape, character by character.
pub open spec fn sh_escape_body(s: Seq<char>) -> Seq<char>
    decreases s.len(),
{
    if s.len() == 0 {
        Seq::empty()
    } else {
        sh_escape_body(s.drop_last()) + sh_escaped_char(s.last())
    }
}

/// What shell escaping returns: a non-empty fully whitelisted string is
/// returned unchanged; anything else is wrapped in single quotes with
/// quotes and bangs escaped.
pub open spec fn sh_escaped(s: Seq<char>) -> Seq<char> {
    if s.len() > 0 && (forall|i: int| 0 <= i < s.len() ==> sh_whitelisted(#[trigger] s[i])) {
        s
    } else {
        seq!['\''] + sh_escape_body(s) + seq!['\'']
    }
}

/// Relies on shell_escape's unix escaping: a non-empty string of
/// whitelisted characters passes unchanged, and anything else is
/// single-quoted with embedded quotes and bangs escaped.
#[verifier::external_body]
pub fn escape_shell_arg(s: &str) -> (r: String)
    ensures
        r@ == sh_escaped(s@),
{
    shell_escape::unix::escape(Cow::Borrowed(s)).into_owned()
}

/// The views of the arguments after shell escaping.
pub open spec fn escaped_views(args: Seq<String>) -> Seq<Seq<char>> {
    args.map_values(|a: String| sh_escaped(a@))
}

/// The exec line appended to the rc script in non-interactive mode: the
/// command followed by its shell-escaped arguments.
pub fn render_exec_line(cmd: &str, args: &Vec<String>) -> (r: String)
    ensures
        r@ == "\nexec "@ + cmd@ + " "@ + strutil::joined(escaped_views(args@), " "@),
{
    let mut escaped: Vec<String> = Vec::new();
    let mut i: usize = 0;
    proof {
        assert(escaped@.map_values(|s: String| s@) =~= escaped_views(args@).take(0));
    }
    while i < args.len()
        invariant
            i <= args@.len(),
            escaped@.map_values(|s: String| s@) == escaped_views(args@).take(i as int),
        decreases args@.len() - i,
    {
        let ghost prev = escaped@.map_values(|s: String| s@);
        let e = escape_shell_arg(args[i].as_str());
        escaped.push(e);
        proof {
            assert(escaped@.map_values(|s: String| s@) =~= prev.push(sh_escaped(args@[i as int]@)));
            assert(escaped_views(args@).take(i + 1) =~= escaped_views(args@).take(i as int).push(
                escaped_views(args@)[i as int],
            ));
        }
        i = i + 1;
    }
    proof {
        assert(escaped_views(args@).take(args@.len() as int) =~= escaped_views(args@));
    }
    let joined_args = strutil::join_with(&escaped, " ");
    let mut out = String::from_str("\nexec ");
    out.append(cmd);
    out.append(" ");
    out.append(joined_args.as_str());
    out
}

/// The rc script that loads the materialized environment: user shell
/// customization is sourced only in interactive contexts, and alias
/// expansion is disabled while the environment loads.
pub fn render_rc_script(env_text: &str) -> (r: String)
    ensures
        r@ == "if [ -n \"$PS1\" ] && [ -e $HOME/.bashrc ]; then\n    source $HOME/.bashrc;\nfi\n\nshopt -u expand_aliases\n"@
            + env_text@ + "\nshopt -s expand_aliases\n"@,
{
    let mut out = String::from_str(
        "if [ -n \"$PS1\" ] && [ -e $HOME/.bashrc ]; then\n    source $HOME/.bashrc;\nfi\n\nshopt -u expand_aliases\n",
    );
    out.append(env_text);
    out.append("\nshopt -s expand_aliases\n");
    out
}

/// The clean-environment policy: an explicit keep-list wins; otherwise the
/// configuration's keep-list applies when the configuration enables
/// cleaning; otherwise the environment is left as it is.
pub fn clean_keep_list(
    explicit: &Option<Vec<String>>,
    config_enabled: bool,
    config_keep: &Vec<String>,
) -> (r: Option<Vec<String>>)
    ensures
        match explicit {
            Some(keep) => r matches Some(v) && v@ == keep@,
            None => if config_enabled {
                r matches Some(v) && v@ == config_keep@
            } else {
                r is None
            },
        },
{
    match explicit {
        Some(keep) => Some(strutil::clone_strings(keep)),
        None => {
            if config_enabled {
                Some(strutil::clone_strings(config_keep))
            } else {
                None
            }
        },
    }
}

} // verus!
