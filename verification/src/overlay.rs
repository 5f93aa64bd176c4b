//! Rendering of ad-hoc `path:type value` overrides into the option-overlay
//! file. Each override key carries a declared type after a colon; the value
//! is rendered according to that type, wrapped in a forcing marker for every
//! type except a package list, and laid out as one attribute per line.

use vstd::prelude::*;

use crate::errors::OrchestratorError;
use crate::strutil;

verus! {

/// An override key `path:type[:...]` split into the attribute path and the
/// declared type name; `None` when it holds no colon at all.
pub open spec fn key_split(k: Seq<char>) -> Option<(Seq<char>, Seq<char>)> {
    match strutil::after_sep(k, ':') {
        None => None,
        Some(rest) => Some((strutil::upto_sep(k, ':'), strutil::upto_sep(rest, ':'))),
    }
}

/// Splits an override key into attribute path and type name.
fn key_split_exec(key: &String) -> (r: Option<(Vec<char>, Vec<char>)>)
    ensures
        match r {
            Some(pt) => key_split(key@) == Some((pt.0@, pt.1@)),
            None => key_split(key@) is None,
        },
{
    let chars = strutil::chars_of(key.as_str());
    match strutil::split_first(&chars, ':') {
        None => {
            proof {
                strutil::lemma_no_sep(key@, ':');
            }
            None
        },
        Some((path, rest)) => {
            proof {
                strutil::lemma_sep_split(path@, rest@, ':');
            }
            match strutil::split_first(&rest, ':') {
                None => {
                    proof {
                        strutil::lemma_no_sep(rest@, ':');
                    }
                    Some((path, rest))
                },
                Some((ty, tail)) => {
                    proof {
                        strutil::lemma_sep_split(ty@, tail@, ':');
                    }
                    Some((path, ty))
                },
            }
        },
    }
}

/// The whitespace-separated tokens of `s`, carrying the token built so far
/// (`cur`) and the tokens already complete (`acc`).
pub open spec fn ws_tokens_from(s: Seq<char>, cur: Seq<char>, acc: Seq<Seq<char>>) -> Seq<
    Seq<char>,
>
    decreases s.len(),
{
    if s.len() == 0 {
        if cur.len() == 0 {
            acc
        } else {
            acc.push(cur)
        }
    } else if strutil::char_is_whitespace(s[0]) {
        if cur.len() == 0 {
            ws_tokens_from(s.drop_first(), Seq::empty(), acc)
        } else {
            ws_tokens_from(s.drop_first(), Seq::empty(), acc.push(cur))
        }
    } else {
        ws_tokens_from(s.drop_first(), cur.push(s[0]), acc)
    }
}

/// The whitespace-separated tokens of `s`.
pub open spec fn ws_tokens(s: Seq<char>) -> Seq<Seq<char>> {
    ws_tokens_from(s, Seq::empty(), Seq::empty())
}

/// The views of a vector of strings.
pub open spec fn token_views(ts: Seq<String>) -> Seq<Seq<char>> {
    ts.map_values(|t: String| t@)
}

/// Splits `v` into its whitespace-separated tokens.
fn ws_tokens_exec(v: &Vec<char>) -> (r: Vec<String>)
    ensures
        token_views(r@) == ws_tokens(v@),
{
    let mut acc: Vec<String> = Vec::new();
    let mut cur: Vec<char> = Vec::new();
    let mut i: usize = 0;
    proof {
        assert(v@.skip(0) =~= v@);
        assert(token_views(acc@) =~= Seq::<Seq<char>>::empty());
    }
    while i < v.len()
        invariant
            i <= v@.len(),
            ws_tokens_from(v@.skip(i as int), cur@, token_views(acc@)) == ws_tokens(v@),
        decreases v@.len() - i,
    {
        let c = v[i];
        let ghost prev_rest = v@.skip(i as int);
        let ghost prev_cur = cur@;
        let ghost prev_views = token_views(acc@);
        proof {
            assert(prev_rest[0] == v@[i as int]);
            assert(prev_rest.drop_first() =~= v@.skip(i + 1));
        }
        if strutil::is_whitespace_char(c) {
            if cur.len() > 0 {
                let tok = strutil::string_of(&cur);
                acc.push(tok);
                cur = Vec::new();
                proof {
                    assert(token_views(acc@) =~= prev_views.push(tok@));
                    assert(ws_tokens_from(prev_rest, prev_cur, prev_views) == ws_tokens_from(
                        prev_rest.drop_first(),
                        Seq::empty(),
                        prev_views.push(prev_cur),
                    ));
                }
            } else {
                proof {
                    assert(prev_cur =~= Seq::<char>::empty());
                    assert(ws_tokens_from(prev_rest, prev_cur, prev_views) == ws_tokens_from(
                        v@.skip(i + 1),
                        cur@,
                        token_views(acc@),
                    ));
                }
            }
        } else {
            cur.push(c);
            proof {
                assert(cur@ == prev_cur.push(v@[i as int]));
                assert(ws_tokens_from(prev_rest, prev_cur, prev_views) == ws_tokens_from(
                    v@.skip(i + 1),
                    cur@,
                    token_views(acc@),
                ));
            }
        }
        i = i + 1;
    }
    proof {
        assert(v@.skip(v@.len() as int) =~= Seq::<char>::empty());
    }
    if cur.len() > 0 {
        let tok = strutil::string_of(&cur);
        let ghost old_acc = acc@;
        acc.push(tok);
        proof {
            assert(token_views(acc@) =~= token_views(old_acc).push(tok@));
        }
    }
    acc
}

/// The package references for a token list, joined by single spaces:
/// `pkgs.a pkgs.b ...`.
pub open spec fn pkg_refs(tokens: Seq<Seq<char>>) -> Seq<char>
    decreases tokens.len(),
{
    if tokens.len() == 0 {
        Seq::empty()
    } else if tokens.len() == 1 {
        "pkgs."@ + tokens[0]
    } else {
        pkg_refs(tokens.drop_last()) + " "@ + "pkgs."@ + tokens.last()
    }
}

/// Renders a whitespace-separated package list value as a list of package
/// references with no forcing wrapper.
fn render_pkg_list(value: &String) -> (r: String)
    ensures
        r@ == "[ "@ + pkg_refs(ws_tokens(value@)) + " ]"@,
{
    let chars = strutil::chars_of(value.as_str());
    let tokens = ws_tokens_exec(&chars);
    let ghost tv = token_views(tokens@);
    let mut out = String::from_str("[ ");
    let mut i: usize = 0;
    proof {
        assert(tv.take(0) =~= Seq::<Seq<char>>::empty());
        assert(out@ =~= "[ "@ + pkg_refs(tv.take(0)));
    }
    while i < tokens.len()
        invariant
            i <= tokens@.len(),
            tv == token_views(tokens@),
            tv == ws_tokens(value@),
            out@ == "[ "@ + pkg_refs(tv.take(i as int)),
        decreases tokens@.len() - i,
    {
        if i > 0 {
            out.append(" ");
        }
        out.append("pkgs.");
        let t = &tokens[i];
        out.append(t.as_str());
        proof {
            assert(tv.take(i + 1).drop_last() =~= tv.take(i as int));
            assert(tv.take(i + 1).last() == tv[i as int]);
            assert(tv[i as int] == tokens@[i as int]@);
            if i == 0 {
                assert(pkg_refs(tv.take(1)) =~= "pkgs."@ + tv[0]);
                assert(out@ =~= "[ "@ + pkg_refs(tv.take(1)));
            } else {
                assert(pkg_refs(tv.take(i + 1)) =~= pkg_refs(tv.take(i as int)) + " "@ + "pkgs."@
                    + tv[i as int]);
                assert(out@ =~= "[ "@ + pkg_refs(tv.take(i + 1)));
            }
        }
        i = i + 1;
    }
    proof {
        assert(tv.take(tokens@.len() as int) =~= tv);
    }
    out.append(" ]");
    out
}

/// How a value of a declared type is rendered; `None` for an unrecognized
/// type name. A `string` value is quoted, `int`, `float` and `bool` values
/// pass through verbatim, a `path` is made relative, a `pkg` becomes one
/// package reference, and `pkgs` becomes a list of package references.
pub open spec fn value_rendering(ty: Seq<char>, v: Seq<char>) -> Option<Seq<char>> {
    if ty == "string"@ {
        Some("\""@ + v + "\""@)
    } else if ty == "int"@ {
        Some(v)
    } else if ty == "float"@ {
        Some(v)
    } else if ty == "bool"@ {
        Some(v)
    } else if ty == "path"@ {
        Some("./"@ + v)
    } else if ty == "pkg"@ {
        Some("pkgs."@ + v)
    } else if ty == "pkgs"@ {
        Some("[ "@ + pkg_refs(ws_tokens(v)) + " ]"@)
    } else {
        None
    }
}

/// The rendered value with its forcing wrapper: every type except `pkgs` is
/// wrapped in `lib.mkForce`.
pub open spec fn forced_rendering(ty: Seq<char>, rendered: Seq<char>) -> Seq<char> {
    if ty == "pkgs"@ {
        rendered
    } else {
        "lib.mkForce "@ + rendered
    }
}

/// One overlay line: two spaces, the attribute path, ` = `, the forced
/// value, `;` and a newline.
pub open spec fn entry_rendering(path: Seq<char>, forced: Seq<char>) -> Seq<char> {
    "  "@ + path + " = "@ + forced + ";\n"@
}

/// Renders one value according to its declared type name.
fn render_value(ty: &Vec<char>, value: &String) -> (r: Option<String>)
    ensures
        match r {
            Some(s) => value_rendering(ty@, value@) == Some(s@),
            None => value_rendering(ty@, value@) is None,
        },
{
    let ty_s = strutil::string_of(ty);
    if strutil::str_eq(ty_s.as_str(), "string") {
        let mut out = String::from_str("\"");
        out.append(value.as_str());
        out.append("\"");
        Some(out)
    } else if strutil::str_eq(ty_s.as_str(), "int") {
        Some(value.clone())
    } else if strutil::str_eq(ty_s.as_str(), "float") {
        Some(value.clone())
    } else if strutil::str_eq(ty_s.as_str(), "bool") {
        Some(value.clone())
    } else if strutil::str_eq(ty_s.as_str(), "path") {
        Some(strutil::concat_strs("./", value.as_str()))
    } else if strutil::str_eq(ty_s.as_str(), "pkg") {
        Some(strutil::concat_strs("pkgs.", value.as_str()))
    } else if strutil::str_eq(ty_s.as_str(), "pkgs") {
        Some(render_pkg_list(value))
    } else {
        None
    }
}

/// What one `(key, value)` override chunk contributes: a rendered entry, or
/// the first error it raises.
pub enum ChunkOutcome {
    Entry(Seq<char>),
    BadKey(Seq<char>),
    BadType(Seq<char>),
}

/// The outcome of rendering one override chunk.
pub open spec fn chunk_outcome(key: Seq<char>, value: Seq<char>) -> ChunkOutcome {
    match key_split(key) {
        None => ChunkOutcome::BadKey(key),
        Some(pt) => match value_rendering(pt.1, value) {
            None => ChunkOutcome::BadType(pt.1),
            Some(rendered) => ChunkOutcome::Entry(
                entry_rendering(pt.0, forced_rendering(pt.1, rendered)),
            ),
        },
    }
}

/// The outcome of rendering a sequence of override chunks: the concatenated
/// entries, or the first error among them.
pub enum OverlayOutcome {
    Rendered(Seq<char>),
    BadKey(Seq<char>),
    BadType(Seq<char>),
}

/// Renders chunks left to right; the first error wins.
pub open spec fn entries_outcome(pairs: Seq<(Seq<char>, Seq<char>)>) -> OverlayOutcome
    decreases pairs.len(),
{
    if pairs.len() == 0 {
        OverlayOutcome::Rendered(Seq::empty())
    } else {
        match entries_outcome(pairs.drop_last()) {
            OverlayOutcome::Rendered(acc) => match chunk_outcome(
                pairs.last().0,
                pairs.last().1,
            ) {
                ChunkOutcome::Entry(e) => OverlayOutcome::Rendered(acc + e),
                ChunkOutcome::BadKey(k) => OverlayOutcome::BadKey(k),
                ChunkOutcome::BadType(t) => OverlayOutcome::BadType(t),
            },
            OverlayOutcome::BadKey(k) => OverlayOutcome::BadKey(k),
            OverlayOutcome::BadType(t) => OverlayOutcome::BadType(t),
        }
    }
}

proof fn lemma_error_sticks(pairs: Seq<(Seq<char>, Seq<char>)>, j: int)
    requires
        0 <= j <= pairs.len(),
        !(entries_outcome(pairs.take(j)) is Rendered),
    ensures
        entries_outcome(pairs) == entries_outcome(pairs.take(j)),
    decreases pairs.len() - j,
{
    if j == pairs.len() {
        assert(pairs.take(j) =~= pairs);
    } else {
        assert(pairs.take(j + 1).drop_last() =~= pairs.take(j));
        assert(pairs.take(j + 1).len() == j + 1);
        lemma_error_sticks(pairs, j + 1);
    }
}

/// The consecutive `(key, value)` chunks of a flat option list; a trailing
/// unpaired element is ignored.
pub open spec fn pairs_of(flat: Seq<Seq<char>>) -> Seq<(Seq<char>, Seq<char>)> {
    Seq::new((flat.len() / 2) as nat, |i: int| (flat[2 * i], flat[2 * i + 1]))
}

/// The views of a vector of key/value pairs.
pub open spec fn pair_views(ps: Seq<(String, String)>) -> Seq<(Seq<char>, Seq<char>)> {
    ps.map_values(|p: (String, String)| (p.0@, p.1@))
}

/// Groups a flat list of alternating keys and values into pairs; a trailing
/// unpaired element is ignored.
fn to_pairs(options: &Vec<String>) -> (r: Vec<(String, String)>)
    ensures
        pair_views(r@) == pairs_of(option_views(options@)),
{
    let len = options.len();
    let mut out: Vec<(String, String)> = Vec::new();
    let mut i: usize = 0;
    while i + 1 < len
        invariant
            len == options@.len(),
            i == 2 * out@.len(),
            i <= len,
            forall|j: int|
                0 <= j < out@.len() ==> #[trigger] out@[j].0@ == options@[2 * j]@ && out@[j].1@
                    == options@[2 * j + 1]@,
        decreases len - i,
    {
        let ghost prev = out@;
        let a = options[i].clone();
        let b = options[i + 1].clone();
        proof {
            assert(a@ == options@[i as int]@);
            assert(b@ == options@[i + 1]@);
        }
        out.push((a, b));
        proof {
            assert forall|j: int| 0 <= j < out@.len() implies #[trigger] out@[j].0@ == options@[2
                * j]@ && out@[j].1@ == options@[2 * j + 1]@ by {
                if j < prev.len() {
                    assert(out@[j] == prev[j]);
                } else {
                    assert(out@[j].0@ == a@);
                    assert(2 * j == i as int);
                }
            }
        }
        i = i + 2;
    }
    proof {
        assert(out@.len() == options@.len() / 2);
        assert(pair_views(out@) =~= pairs_of(option_views(options@)));
    }
    out
}

/// The views of a flat option list.
pub open spec fn option_views(options: Seq<String>) -> Seq<Seq<char>> {
    options.map_values(|o: String| o@)
}

/// The fixed first line of the overlay file.
pub open spec fn overlay_header() -> Seq<char> {
    "{ pkgs, lib, config, ... }: {\n"@
}

/// The fixed last line of the overlay file.
pub open spec fn overlay_footer() -> Seq<char> {
    "}\n"@
}

/// Renders the whole option-overlay file from a flat list of alternating
/// keys and values. Fails with `InvalidOption` on a key without a declared
/// type and with `UnsupportedOptionType` on an unrecognized type name; the
/// first error wins.
pub fn render_options_overlay(options: &Vec<String>) -> (r: Result<String, OrchestratorError>)
    ensures
        match r {
            Ok(content) => entries_outcome(pairs_of(option_views(options@))) matches
                OverlayOutcome::Rendered(e) && content@ == overlay_header() + e
                + overlay_footer(),
            Err(err) => match err {
                OrchestratorError::InvalidOption(t) => entries_outcome(
                    pairs_of(option_views(options@)),
                ) matches OverlayOutcome::BadKey(k) && t@ == k,
                OrchestratorError::UnsupportedOptionType(t) => entries_outcome(
                    pairs_of(option_views(options@)),
                ) matches OverlayOutcome::BadType(ty) && t@ == ty,
                _ => false,
            },
        },
{
    let ghost pairs = pairs_of(option_views(options@));
    let chunks = to_pairs(options);
    let n = chunks.len();
    let mut body = String::new();
    let mut k: usize = 0;
    proof {
        assert(pairs.take(0) =~= Seq::<(Seq<char>, Seq<char>)>::empty());
    }
    while k < n
        invariant
            k <= n,
            pairs == pairs_of(option_views(options@)),
            pair_views(chunks@) == pairs,
            n == chunks@.len(),
            entries_outcome(pairs.take(k as int)) == OverlayOutcome::Rendered(body@),
        decreases n - k,
    {
        let key = &chunks[k].0;
        let value = &chunks[k].1;
        proof {
            assert(pair_views(chunks@)[k as int] == (key@, value@));
            assert(pairs[k as int] == (key@, value@));
        }
        match key_split_exec(key) {
            None => {
                proof {
                    assert(pairs.take(k + 1).drop_last() =~= pairs.take(k as int));
                    assert(chunk_outcome(key@, value@) == ChunkOutcome::BadKey(key@));
                    assert(entries_outcome(pairs.take(k + 1)) == OverlayOutcome::BadKey(key@));
                    lemma_error_sticks(pairs, k + 1);
                }
                return Err(OrchestratorError::InvalidOption(key.clone()));
            },
            Some((path, ty)) => {
                match render_value(&ty, value) {
                    None => {
                        proof {
                            assert(pairs.take(k + 1).drop_last() =~= pairs.take(k as int));
                            assert(chunk_outcome(key@, value@) == ChunkOutcome::BadType(ty@));
                            assert(entries_outcome(pairs.take(k + 1)) == OverlayOutcome::BadType(
                                ty@,
                            ));
                            lemma_error_sticks(pairs, k + 1);
                        }
                        return Err(OrchestratorError::UnsupportedOptionType(strutil::string_of(&ty)));
                    },
                    Some(rendered) => {
                        let ty_s = strutil::string_of(&ty);
                        let forced = if strutil::str_eq(ty_s.as_str(), "pkgs") {
                            rendered
                        } else {
                            strutil::concat_strs("lib.mkForce ", rendered.as_str())
                        };
                        let ghost old_body = body@;
                        body.append("  ");
                        strutil::append_chars(&mut body, &path);
                        body.append(" = ");
                        body.append(forced.as_str());
                        body.append(";\n");
                        proof {
                            assert(pairs.take(k + 1).drop_last() =~= pairs.take(k as int));
                            assert(chunk_outcome(key@, value@) == ChunkOutcome::Entry(
                                entry_rendering(path@, forced@),
                            ));
                            assert(body@ =~= old_body + entry_rendering(path@, forced@));
                        }
                    },
                }
            },
        }
        k = k + 1;
    }
    proof {
        assert(pairs.take(n as int) =~= pairs);
    }
    let mut content = String::from_str("{ pkgs, lib, config, ... }: {\n");
    content.append(body.as_str());
    content.append("}\n");
    Ok(content)
}

} // verus!
