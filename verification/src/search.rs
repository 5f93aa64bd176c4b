//! Search result processing: the backend's option and package documents
//! are decoded, options are filtered by the search term, and package keys
//! are shortened to their display names.

use vstd::prelude::*;

use crate::errors::OrchestratorError;
use crate::strutil;

verus! {

/// One row of the option search output.
#[derive(Debug)]
pub struct OptionSearchResult {
    pub name: String,
    pub type_: String,
    pub default: String,
    pub description: String,
}

/// One row of the package search output.
#[derive(Debug)]
pub struct PackageSearchResult {
    pub name: String,
    pub version: String,
    pub description: String,
}

/// What decoding the options document yields: for each option, its name,
/// type, optional default and description. It depends on the document
/// bytes alone.
pub uninterp spec fn options_document_of(bytes: Seq<u8>) -> Option<
    Seq<(Seq<char>, Seq<char>, Option<Seq<char>>, Seq<char>)>,
>;

/// What decoding the package search document yields: for each package,
/// its key, version and description. It depends on the document bytes
/// alone.
pub uninterp spec fn package_document_of(bytes: Seq<u8>) -> Option<
    Seq<(Seq<char>, Seq<char>, Seq<char>)>,
>;

/// The views of decoded option entries.
pub open spec fn option_entry_views(es: Seq<(String, String, Option<String>, String)>) -> Seq<
    (Seq<char>, Seq<char>, Option<Seq<char>>, Seq<char>),
> {
    es.map_values(
        |e: (String, String, Option<String>, String)|
            (
                e.0@,
                e.1@,
                match e.2 {
                    Some(d) => Some(d@),
                    None => None,
                },
                e.3@,
            ),
    )
}

/// The views of decoded package entries.
pub open spec fn package_entry_views(es: Seq<(String, String, String)>) -> Seq<
    (Seq<char>, Seq<char>, Seq<char>),
> {
    es.map_values(|e: (String, String, String)| (e.0@, e.1@, e.2@))
}

/// Relies on serde_json: decodes the options document, an object keyed by
/// option name whose entries carry `type`, an optional `default` and
/// `description`; `None` on any malformed document.
#[verifier::external_body]
fn parse_options_document(raw: &[u8]) -> (r: Option<Vec<(String, String, Option<String>, String)>>)
    ensures
        match r {
            Some(entries) => options_document_of(raw@) == Some(option_entry_views(entries@)),
            None => options_document_of(raw@) is None,
        },
{
    let v: serde_json::Value = serde_json::from_slice(raw).ok()?;
    let obj = v.as_object()?;
    let mut out = Vec::with_capacity(obj.len());
    for (key, val) in obj {
        let type_ = val.get("type")?.as_str()?.to_string();
        let default = match val.get("default") {
            Some(d) if d.is_null() => None,
            Some(d) => Some(d.as_str()?.to_string()),
            None => None,
        };
        let description = val.get("description")?.as_str()?.to_string();
        out.push((key.clone(), type_, default, description));
    }
    Some(out)
}

/// Relies on serde_json: decodes the package search document, an object
/// keyed by package attribute whose entries carry `version` and
/// `description`; `None` on any malformed document.
#[verifier::external_body]
fn parse_package_document(raw: &[u8]) -> (r: Option<Vec<(String, String, String)>>)
    ensures
        match r {
            Some(entries) => package_document_of(raw@) == Some(package_entry_views(entries@)),
            None => package_document_of(raw@) is None,
        },
{
    let v: serde_json::Value = serde_json::from_slice(raw).ok()?;
    let obj = v.as_object()?;
    let mut out = Vec::with_capacity(obj.len());
    for (key, val) in obj {
        let version = val.get("version")?.as_str()?.to_string();
        let description = val.get("description")?.as_str()?.to_string();
        out.push((key.clone(), version, description));
    }
    Some(out)
}

/// Whether an option entry matches the search term: its name contains the
/// term.
pub open spec fn option_matches(
    e: (Seq<char>, Seq<char>, Option<Seq<char>>, Seq<char>),
    name: Seq<char>,
) -> bool {
    strutil::contains_sub(e.0, name)
}

/// The view of one option result row: the entry with a missing default
/// rendered empty.
pub open spec fn option_row_view(
    e: (Seq<char>, Seq<char>, Option<Seq<char>>, Seq<char>),
) -> (Seq<char>, Seq<char>, Seq<char>, Seq<char>) {
    (
        e.0,
        e.1,
        match e.2 {
            Some(d) => d,
            None => Seq::empty(),
        },
        e.3,
    )
}

/// The option rows matching a search term, in document order.
pub open spec fn matching_option_rows(
    entries: Seq<(Seq<char>, Seq<char>, Option<Seq<char>>, Seq<char>)>,
    name: Seq<char>,
) -> Seq<(Seq<char>, Seq<char>, Seq<char>, Seq<char>)> {
    entries.filter(
        |e: (Seq<char>, Seq<char>, Option<Seq<char>>, Seq<char>)| option_matches(e, name),
    ).map_values(
        |e: (Seq<char>, Seq<char>, Option<Seq<char>>, Seq<char>)| option_row_view(e),
    )
}

/// The views of option result rows.
pub open spec fn option_result_views(rs: Seq<OptionSearchResult>) -> Seq<
    (Seq<char>, Seq<char>, Seq<char>, Seq<char>),
> {
    rs.map_values(
        |o: OptionSearchResult| (o.name@, o.type_@, o.default@, o.description@),
    )
}

/// Filters decoded option entries by the search term and shapes the
/// result rows: name, type, default (empty when absent), description.
pub fn options_results(
    entries: &Vec<(String, String, Option<String>, String)>,
    name: &str,
) -> (r: Vec<OptionSearchResult>)
    ensures
        option_result_views(r@) == matching_option_rows(option_entry_views(entries@), name@),
{
    let ghost ev = option_entry_views(entries@);
    let name_chars = strutil::chars_of(name);
    let mut out: Vec<OptionSearchResult> = Vec::new();
    let mut i: usize = 0;
    proof {
        reveal(Seq::filter);
        assert(ev.take(0) =~= Seq::<(Seq<char>, Seq<char>, Option<Seq<char>>, Seq<char>)>::empty());
        assert(option_result_views(out@) =~= matching_option_rows(ev.take(0), name@));
    }
    while i < entries.len()
        invariant
            i <= entries@.len(),
            ev == option_entry_views(entries@),
            name_chars@ == name@,
            option_result_views(out@) == matching_option_rows(ev.take(i as int), name@),
        decreases entries@.len() - i,
    {
        let ghost prev = option_result_views(out@);
        let ghost e = ev[i as int];
        let key_chars = strutil::chars_of(entries[i].0.as_str());
        let matched = match strutil::find_sub(&key_chars, &name_chars) {
            Some(_) => true,
            None => false,
        };
        proof {
            assert(matched == option_matches(e, name@));
        }
        if matched {
            let default = match &entries[i].2 {
                Some(d) => d.clone(),
                None => String::new(),
            };
            let row = OptionSearchResult {
                name: entries[i].0.clone(),
                type_: entries[i].1.clone(),
                default,
                description: entries[i].3.clone(),
            };
            out.push(row);
            proof {
                assert(option_result_views(out@) =~= prev.push(option_row_view(e)));
            }
        }
        proof {
            assert(ev.take(i + 1) =~= ev.take(i as int).push(e));
            strutil::lemma_filter_push(
                ev.take(i as int),
                |x: (Seq<char>, Seq<char>, Option<Seq<char>>, Seq<char>)|
                    option_matches(x, name@),
                e,
            );
            if option_matches(e, name@) {
                assert(matching_option_rows(ev.take(i + 1), name@) =~= matching_option_rows(
                    ev.take(i as int),
                    name@,
                ).push(option_row_view(e)));
            } else {
                assert(matching_option_rows(ev.take(i + 1), name@) =~= matching_option_rows(
                    ev.take(i as int),
                    name@,
                ));
            }
        }
        i = i + 1;
    }
    proof {
        assert(ev.take(entries@.len() as int) =~= ev);
    }
    out
}

/// The segments of a package key after its first two, i.e. without the
/// leading result-set and platform components.
pub open spec fn trailing_segments(segs: Seq<Seq<char>>) -> Seq<Seq<char>> {
    if segs.len() <= 2 {
        Seq::empty()
    } else {
        segs.skip(2)
    }
}

/// The display name of a package key: `pkgs.` and the key's dotted
/// segments after the first two.
pub open spec fn package_display_name(key: Seq<char>) -> Seq<char> {
    "pkgs."@ + strutil::joined(trailing_segments(strutil::split_char(key, '.')), "."@)
}

/// Renders a package key as its display name.
pub fn render_package_name(key: &str) -> (r: String)
    ensures
        r@ == package_display_name(key@),
{
    let key_chars = strutil::chars_of(key);
    let segs = strutil::split_all(&key_chars, '.');
    let ghost sv = strutil::split_char(key@, '.');
    let mut rest: Vec<String> = Vec::new();
    if segs.len() <= 2 {
        proof {
            assert(strutil::joined(trailing_segments(sv), "."@) =~= Seq::<char>::empty());
        }
        let out = String::from_str("pkgs.");
        proof {
            assert(out@ =~= package_display_name(key@));
        }
        return out;
    }
    let mut i: usize = 2;
    proof {
        assert(rest@.map_values(|s: String| s@) =~= sv.subrange(2, 2));
    }
    while i < segs.len()
        invariant
            2 <= i <= segs@.len(),
            sv == segs@.map_values(|s: String| s@),
            sv.len() > 2,
            rest@.map_values(|s: String| s@) == sv.subrange(2, i as int),
        decreases segs@.len() - i,
    {
        let ghost prev = rest@.map_values(|s: String| s@);
        let s = segs[i].clone();
        rest.push(s);
        proof {
            assert(rest@.map_values(|s2: String| s2@) =~= prev.push(sv[i as int]));
            assert(sv.subrange(2, i + 1) =~= sv.subrange(2, i as int).push(sv[i as int]));
        }
        i = i + 1;
    }
    proof {
        assert(sv.subrange(2, sv.len() as int) =~= sv.skip(2));
    }
    let joined_rest = strutil::join_with(&rest, ".");
    let mut out = String::from_str("pkgs.");
    out.append(joined_rest.as_str());
    out
}

/// The first `max` characters of a string; the whole string when it is
/// short enough.
pub open spec fn truncated(s: Seq<char>, max: int) -> Seq<char> {
    if s.len() <= max {
        s
    } else {
        s.take(max)
    }
}

/// Keeps at most the first `max` characters.
pub fn truncate_chars(s: &str, max: usize) -> (r: String)
    ensures
        r@ == truncated(s@, max as int),
{
    let chars = strutil::chars_of(s);
    if chars.len() <= max {
        strutil::string_of(&chars)
    } else {
        let kept = strutil::subvec(&chars, 0, max);
        proof {
            assert(chars@.subrange(0, max as int) =~= chars@.take(max as int));
        }
        strutil::string_of(&kept)
    }
}

/// The view of one package result row: the shortened display name, the
/// version, and the description cut to eighty characters.
pub open spec fn package_row_view(e: (Seq<char>, Seq<char>, Seq<char>)) -> (
    Seq<char>,
    Seq<char>,
    Seq<char>,
) {
    (package_display_name(e.0), e.1, truncated(e.2, 80))
}

/// The views of package result rows.
pub open spec fn package_result_views(rs: Seq<PackageSearchResult>) -> Seq<
    (Seq<char>, Seq<char>, Seq<char>),
> {
    rs.map_values(|p: PackageSearchResult| (p.name@, p.version@, p.description@))
}

/// Shapes decoded package entries into result rows: shortened name,
/// version, and description cut to eighty characters.
pub fn package_results(entries: &Vec<(String, String, String)>) -> (r: Vec<PackageSearchResult>)
    ensures
        package_result_views(r@) == package_entry_views(entries@).map_values(
            |e: (Seq<char>, Seq<char>, Seq<char>)| package_row_view(e),
        ),
{
    let ghost ev = package_entry_views(entries@);
    let ghost target = ev.map_values(|e: (Seq<char>, Seq<char>, Seq<char>)| package_row_view(e));
    let mut out: Vec<PackageSearchResult> = Vec::new();
    let mut i: usize = 0;
    proof {
        assert(package_result_views(out@) =~= target.take(0));
    }
    while i < entries.len()
        invariant
            i <= entries@.len(),
            ev == package_entry_views(entries@),
            target == ev.map_values(|e: (Seq<char>, Seq<char>, Seq<char>)| package_row_view(e)),
            package_result_views(out@) == target.take(i as int),
        decreases entries@.len() - i,
    {
        let ghost prev = package_result_views(out@);
        let row = PackageSearchResult {
            name: render_package_name(entries[i].0.as_str()),
            version: entries[i].1.clone(),
            description: truncate_chars(entries[i].2.as_str(), 80),
        };
        out.push(row);
        proof {
            assert(package_result_views(out@) =~= prev.push(target[i as int]));
            assert(target.take(i + 1) =~= target.take(i as int).push(target[i as int]));
        }
        i = i + 1;
    }
    proof {
        assert(target.take(entries@.len() as int) =~= target);
    }
    out
}

/// Decodes the options document and filters it by the search term; a
/// malformed document fails with `ParseError`.
pub fn search_options_output(raw: &[u8], name: &str) -> (r: Result<
    Vec<OptionSearchResult>,
    OrchestratorError,
>)
    ensures
        match r {
            Ok(results) => options_document_of(raw@) matches Some(entries)
                && option_result_views(results@) == matching_option_rows(entries, name@),
            Err(e) => options_document_of(raw@) is None && e matches
                OrchestratorError::ParseError(_),
        },
{
    match parse_options_document(raw) {
        Some(entries) => Ok(options_results(&entries, name)),
        None => Err(OrchestratorError::ParseError(String::from_str("options document"))),
    }
}

/// Decodes the package search document and shapes its rows; a malformed
/// document fails with `ParseError`.
pub fn search_packages_output(raw: &[u8]) -> (r: Result<
    Vec<PackageSearchResult>,
    OrchestratorError,
>)
    ensures
        match r {
            Ok(results) => package_document_of(raw@) matches Some(entries)
                && package_result_views(results@) == entries.map_values(
                |e: (Seq<char>, Seq<char>, Seq<char>)| package_row_view(e),
            ),
            Err(e) => package_document_of(raw@) is None && e matches
                OrchestratorError::ParseError(_),
        },
{
    match parse_package_document(raw) {
        Some(entries) => Ok(package_results(&entries)),
        None => Err(OrchestratorError::ParseError(String::from_str("package search document"))),
    }
}

} // verus!
