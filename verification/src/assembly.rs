//! One-time materialization of the derived configuration artifacts every
//! other operation depends on: the completion flag decides whether work
//! is owed at all, the renderers here compute the exact file contents,
//! and the flag flips only after every write succeeded, so a failed
//! assembly is retried in full.

use vstd::prelude::*;

use crate::errors::OrchestratorError;
use crate::numbers::{all_digits, dec_str, digits_value, parse_decimal};
use crate::overlay;
use crate::strutil;

verus! {

/// What an assembly call decides to do.
#[derive(Clone, Copy, Debug, PartialEq, Eq, Structural)]
pub enum AssemblyDecision {
    /// A previous call completed all side effects; return success at once.
    AlreadyAssembled,
    /// No ad-hoc overrides were supplied and the root environment
    /// description is missing: fail with `MissingEnvironmentDescription`.
    MissingDescription,
    /// Perform the full side-effecting sequence.
    Proceed,
}

/// The decision of one assembly call, given the completion flag, whether
/// ad-hoc overrides were supplied, and whether the root
/// environment-description file exists.
pub open spec fn assembly_plan(
    assembled: bool,
    has_overrides: bool,
    root_file_exists: bool,
) -> AssemblyDecision {
    if assembled {
        AssemblyDecision::AlreadyAssembled
    } else if !has_overrides && !root_file_exists {
        AssemblyDecision::MissingDescription
    } else {
        AssemblyDecision::Proceed
    }
}

/// What the completion flag is after a call whose body ran with the given
/// outcome: only a success sets it, and it never resets.
pub open spec fn completed_flag(assembled: bool, success: bool) -> bool {
    assembled || success
}

/// The assembly completion flag. The caller serializes entry to the
/// side-effecting body (one assembly body at a time); this type decides
/// and records completion.
pub struct AssemblyGate {
    pub assembled: bool,
}

impl AssemblyGate {
    /// A fresh gate: nothing assembled yet.
    pub fn new() -> (r: AssemblyGate)
        ensures
            !r.assembled,
    {
        AssemblyGate { assembled: false }
    }

    /// Decides one assembly call: a no-op success once assembled, a
    /// `MissingDescription` failure when neither overrides nor the root
    /// description file are present, and the full sequence otherwise.
    pub fn plan(&self, has_overrides: bool, root_file_exists: bool) -> (r: AssemblyDecision)
        ensures
            r == assembly_plan(self.assembled, has_overrides, root_file_exists),
    {
        if self.assembled {
            AssemblyDecision::AlreadyAssembled
        } else if !has_overrides && !root_file_exists {
            AssemblyDecision::MissingDescription
        } else {
            AssemblyDecision::Proceed
        }
    }

    /// Records the outcome of the side-effecting body: the flag flips only
    /// on success, after all writes succeeded.
    pub fn complete(&mut self, success: bool)
        ensures
            final(self).assembled == completed_flag(old(self).assembled, success),
    {
        if success {
            self.assembled = true;
        }
    }
}

/// Assembly idempotence: once the completion flag is set, every further
/// call is a no-op success; a success sets the flag; a failure leaves it
/// unset, so a retry plans exactly what the first call planned.
pub proof fn lemma_assembly_idempotence(has_overrides: bool, root_file_exists: bool)
    ensures
        assembly_plan(true, has_overrides, root_file_exists)
            == AssemblyDecision::AlreadyAssembled,
        assembly_plan(completed_flag(false, true), has_overrides, root_file_exists)
            == AssemblyDecision::AlreadyAssembled,
        !completed_flag(false, false),
        assembly_plan(completed_flag(false, false), has_overrides, root_file_exists)
            == assembly_plan(false, has_overrides, root_file_exists),
{
}

/// The content of the import-list artifact: the imports joined by
/// newlines.
pub fn imports_content(imports: &Vec<String>) -> (r: String)
    ensures
        r@ == strutil::joined(imports@.map_values(|s: String| s@), "\n"@),
{
    strutil::join_with(imports, "\n")
}

/// What assembly does about the option-overlay file: with no ad-hoc
/// overrides any stale overlay is removed (`None`); with overrides the
/// rendered overlay is written, or rendering fails with the first
/// override's error.
pub fn overlay_action(options: &Vec<String>) -> (r: Result<Option<String>, OrchestratorError>)
    ensures
        options@.len() == 0 ==> r == Ok::<Option<String>, OrchestratorError>(None),
        options@.len() > 0 ==> match r {
            Ok(content) => content matches Some(c) && overlay::entries_outcome(
                overlay::pairs_of(overlay::option_views(options@)),
            ) matches overlay::OverlayOutcome::Rendered(e) && c@ == overlay::overlay_header() + e
                + overlay::overlay_footer(),
            Err(err) => match err {
                OrchestratorError::InvalidOption(t) => overlay::entries_outcome(
                    overlay::pairs_of(overlay::option_views(options@)),
                ) matches overlay::OverlayOutcome::BadKey(k) && t@ == k,
                OrchestratorError::UnsupportedOptionType(t) => overlay::entries_outcome(
                    overlay::pairs_of(overlay::option_views(options@)),
                ) matches overlay::OverlayOutcome::BadType(ty) && t@ == ty,
                _ => false,
            },
        },
{
    if options.len() == 0 {
        Ok(None)
    } else {
        match overlay::render_options_overlay(options) {
            Ok(content) => Ok(Some(content)),
            Err(e) => Err(e),
        }
    }
}

/// The named variables substituted into the environment-specification
/// template.
pub struct FlakeVars {
    pub version: String,
    pub system: String,
    pub devenv_root: String,
    pub devenv_dotfile_name: String,
    pub container_name: Option<String>,
    pub devenv_tmpdir: String,
    pub devenv_runtime: String,
    pub is_testing: bool,
    pub direnvrc_version: u32,
}

/// The textual form of a boolean in the rendered variable block.
pub open spec fn bool_text(b: bool) -> Seq<char> {
    if b {
        "true"@
    } else {
        "false"@
    }
}

/// The container name as rendered: quoted, or `null` when none is set.
pub open spec fn container_name_text(c: Option<String>) -> Seq<char> {
    match c {
        Some(n) => "\""@ + n@ + "\""@,
        None => "null"@,
    }
}

/// The rendered variable block, one `name = value;` line per variable; the
/// state-directory name appears twice, once as a path and once as a
/// string.
pub open spec fn flake_vars_rendering(v: FlakeVars) -> Seq<char> {
    "version = \""@ + v.version@ + "\";\n"@ + "system = \""@ + v.system@ + "\";\n"@
        + "devenv_root = \""@ + v.devenv_root@ + "\";\n"@ + "devenv_dotfile = ./"@
        + v.devenv_dotfile_name@ + ";\n"@ + "devenv_dotfile_string = \""@
        + v.devenv_dotfile_name@ + "\";\n"@ + "container_name = "@ + container_name_text(
        v.container_name,
    ) + ";\n"@ + "devenv_tmpdir = \""@ + v.devenv_tmpdir@ + "\";\n"@ + "devenv_runtime = \""@
        + v.devenv_runtime@ + "\";\n"@ + "devenv_istesting = "@ + bool_text(v.is_testing)
        + ";\n"@ + "devenv_direnvrc_latest_version = "@ + dec_str(v.direnvrc_version as nat)
        + ";\n"@
}

/// Renders the variable block substituted into the environment
/// specification.
pub fn render_flake_vars(v: &FlakeVars) -> (r: String)
    ensures
        r@ == flake_vars_rendering(*v),
{
    let mut out = String::from_str("version = \"");
    out.append(v.version.as_str());
    out.append("\";\n");
    out.append("system = \"");
    out.append(v.system.as_str());
    out.append("\";\n");
    out.append("devenv_root = \"");
    out.append(v.devenv_root.as_str());
    out.append("\";\n");
    out.append("devenv_dotfile = ./");
    out.append(v.devenv_dotfile_name.as_str());
    out.append(";\n");
    out.append("devenv_dotfile_string = \"");
    out.append(v.devenv_dotfile_name.as_str());
    out.append("\";\n");
    out.append("container_name = ");
    match &v.container_name {
        Some(n) => {
            out.append("\"");
            out.append(n.as_str());
            out.append("\"");
        },
        None => {
            out.append("null");
        },
    }
    out.append(";\n");
    out.append("devenv_tmpdir = \"");
    out.append(v.devenv_tmpdir.as_str());
    out.append("\";\n");
    out.append("devenv_runtime = \"");
    out.append(v.devenv_runtime.as_str());
    out.append("\";\n");
    out.append("devenv_istesting = ");
    if v.is_testing {
        out.append("true");
    } else {
        out.append("false");
    }
    out.append(";\n");
    out.append("devenv_direnvrc_latest_version = ");
    let version_text = crate::numbers::render_decimal(v.direnvrc_version);
    out.append(version_text.as_str());
    out.append(";\n");
    out
}

/// The placeholder in the environment-specification template that the
/// variable block replaces.
pub open spec fn vars_marker() -> Seq<char> {
    "__DEVENV_VARS__"@
}

/// Renders the environment-specification file: the template with its first
/// variable placeholder replaced by the rendered variable block.
pub fn render_flake_file(template: &str, vars: &str) -> (r: String)
    ensures
        !strutil::contains_sub(template@, vars_marker()) ==> r@ == template@,
        forall|i: int|
            strutil::is_sub_at(template@, vars_marker(), i) && (forall|j: int|
                0 <= j < i ==> !strutil::is_sub_at(template@, vars_marker(), j)) ==> r@
                == strutil::replaced_first(template@, vars_marker(), vars@, Some(i)),
{
    strutil::replace_first(template, "__DEVENV_VARS__", vars)
}

/// The line marker that carries the version exported by the directory
/// environment hook.
pub open spec fn version_marker() -> Seq<char> {
    "export DEVENV_DIRENVRC_VERSION"@
}

/// The version a marked line declares: the text after its last `=`,
/// trimmed; zero when that text is not a decimal number that fits in one
/// byte.
pub open spec fn version_of_line(l: Seq<char>) -> nat {
    let seg = strutil::trimmed(strutil::after_last_sep(l, '='));
    if seg.len() > 0 && all_digits(seg) && digits_value(seg) <= 255 {
        digits_value(seg)
    } else {
        0
    }
}

/// The first line holding the version marker.
pub open spec fn first_marked_line(lines: Seq<Seq<char>>) -> Option<Seq<char>>
    decreases lines.len(),
{
    if lines.len() == 0 {
        None
    } else if strutil::contains_sub(lines[0], version_marker()) {
        Some(lines[0])
    } else {
        first_marked_line(lines.drop_first())
    }
}

/// The version the directory-environment hook text declares: taken from
/// its first marker line, zero when no line carries the marker.
pub open spec fn direnvrc_version_of(text: Seq<char>) -> nat {
    match first_marked_line(strutil::split_char(text, '\n')) {
        Some(l) => version_of_line(l),
        None => 0,
    }
}

/// Reads the declared version out of the directory-environment hook text.
pub fn direnvrc_version(text: &str) -> (r: u32)
    ensures
        r as nat == direnvrc_version_of(text@),
        r <= 255,
{
    let chars = strutil::chars_of(text);
    let lines = strutil::split_all(&chars, '\n');
    let ghost lv = lines@.map_values(|t: String| t@);
    let marker_chars = strutil::chars_of("export DEVENV_DIRENVRC_VERSION");
    let mut i: usize = 0;
    proof {
        assert(lv.skip(0) =~= lv);
    }
    while i < lines.len()
        invariant
            i <= lines@.len(),
            lv == lines@.map_values(|t: String| t@),
            lv == strutil::split_char(text@, '\n'),
            marker_chars@ == version_marker(),
            first_marked_line(lv.skip(i as int)) == first_marked_line(lv),
        decreases lines@.len() - i,
    {
        let line_chars = strutil::chars_of(lines[i].as_str());
        proof {
            assert(lv.skip(i as int)[0] == lv[i as int]);
            assert(lv.skip(i as int).drop_first() =~= lv.skip(i + 1));
        }
        match strutil::find_sub(&line_chars, &marker_chars) {
            Some(_) => {
                proof {
                    assert(strutil::contains_sub(lv[i as int], version_marker()));
                    assert(first_marked_line(lv.skip(i as int)) == Some(lv[i as int]));
                }
                let seg = strutil::split_after_last(&line_chars, '=');
                let seg_trimmed = strutil::trim_chars(&seg);
                let seg_str = strutil::string_of(&seg_trimmed);
                match parse_decimal(seg_str.as_str()) {
                    Some(n) => {
                        if n <= 255 {
                            return n;
                        } else {
                            return 0;
                        }
                    },
                    None => {
                        return 0;
                    },
                }
            },
            None => {
                proof {
                    assert(!strutil::contains_sub(lv[i as int], version_marker()));
                }
            },
        }
        i = i + 1;
    }
    proof {
        assert(lv.skip(lv.len() as int) =~= Seq::<Seq<char>>::empty());
        assert(first_marked_line(lv) is None);
    }
    0
}

/// The rolling-upgrade switch of the directory-environment hook, turned
/// on: the first occurrence of the off setting replaced by the on setting.
pub fn direnvrc_with_rolling_upgrade(text: &str) -> (r: String)
    ensures
        !strutil::contains_sub(text@, "DEVENV_DIRENVRC_ROLLING_UPGRADE=0"@) ==> r@ == text@,
        forall|i: int|
            strutil::is_sub_at(text@, "DEVENV_DIRENVRC_ROLLING_UPGRADE=0"@, i) && (forall|j: int|
                0 <= j < i ==> !strutil::is_sub_at(
                    text@,
                    "DEVENV_DIRENVRC_ROLLING_UPGRADE=0"@,
                    j,
                )) ==> r@ == strutil::replaced_first(
                text@,
                "DEVENV_DIRENVRC_ROLLING_UPGRADE=0"@,
                "DEVENV_DIRENVRC_ROLLING_UPGRADE=1"@,
                Some(i),
            ),
{
    strutil::replace_first(
        text,
        "DEVENV_DIRENVRC_ROLLING_UPGRADE=0",
        "DEVENV_DIRENVRC_ROLLING_UPGRADE=1",
    )
}

} // verus!
