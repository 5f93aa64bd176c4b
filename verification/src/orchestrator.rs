//! The orchestrator proper: the filesystem roots derived at construction,
//! the assembly gate, the tracked service group, and the small decisions
//! (state-file paths, process detection, declared-input filtering) the
//! surrounding operations rest on.

use vstd::prelude::*;
use vstd::utf8::encode_utf8;

use crate::assembly::AssemblyGate;
use crate::hashing;
use crate::processes::ServiceGroup;
use crate::strutil;

verus! {

/// What the orchestrator is constructed from: the project root, an
/// optional explicit state directory, and the relevant global options.
pub struct DevenvOptions {
    /// The project root directory.
    pub devenv_root: String,
    /// The state directory; the default is `.devenv` under the root.
    pub devenv_dotfile: Option<String>,
    /// The target platform.
    pub system: String,
    /// Ad-hoc `path:type`/value overrides, alternating key and value.
    pub cli_options: Vec<String>,
    /// Suppress routine output.
    pub quiet: bool,
    /// Emit extra output.
    pub verbose: bool,
    /// An explicit clean-environment keep-list; `None` leaves the
    /// configuration's default in force.
    pub clean_keep: Option<Vec<String>>,
}

/// How a process group is launched.
pub struct ProcessOptions {
    /// An explicit environment for the group; without one the group runs
    /// inside a freshly evaluated shell.
    pub envs: Option<Vec<(String, String)>>,
    /// Whether the group is detached from the current process.
    pub detach: bool,
    /// Whether the group's output goes to the log file.
    pub log_to_file: bool,
}

/// A materialized development environment: the evaluated output blob.
pub struct DevEnv {
    pub output: Vec<u8>,
}

/// The filesystem roots of one project.
pub struct ProjectPaths {
    pub root: String,
    pub dotfile: String,
    pub dot_gc: String,
    pub home_gc: String,
    pub cachix_trusted_keys: String,
    pub tmpdir: String,
    pub runtime: String,
}

/// The hex digest keying the runtime directory, over the state-directory
/// path's encoded bytes.
pub open spec fn state_dir_hash(dotfile: Seq<char>) -> Seq<char> {
    hashing::hex_of(hashing::sha256_of(encode_utf8(dotfile)))
}

/// The orchestrator: shared options, derived paths, the assembly gate and
/// the tracked service group. Constructed once per invocation; all
/// durability is in the files it writes.
pub struct Devenv {
    pub options: DevenvOptions,
    pub paths: ProjectPaths,
    pub assembly: AssemblyGate,
    pub service_group: ServiceGroup,
    pub container_name: Option<String>,
}

impl Devenv {
    /// Derives every filesystem root from the project root, the data home
    /// and the temp directory: the state directory defaults to `.devenv`
    /// under the root, both GC directories and the trusted-keys cache hang
    /// off their parents, and the runtime scratch directory is keyed by
    /// the first seven hex digits of the state-directory hash.
    pub fn new(options: DevenvOptions, xdg_data_home: &str, tmpdir: &str) -> (r: Devenv)
        ensures
            r.paths.root@ == options.devenv_root@,
            r.paths.dotfile@ == match options.devenv_dotfile {
                Some(d) => d@,
                None => options.devenv_root@ + "/.devenv"@,
            },
            r.paths.dot_gc@ == r.paths.dotfile@ + "/gc"@,
            r.paths.home_gc@ == xdg_data_home@ + "/gc"@,
            r.paths.cachix_trusted_keys@ == xdg_data_home@ + "/cachix_trusted_keys.json"@,
            r.paths.tmpdir@ == tmpdir@,
            r.paths.runtime@ == tmpdir@ + "/devenv-"@ + state_dir_hash(r.paths.dotfile@).take(7),
            !r.assembly.assembled,
            r.service_group.pid_file is None,
            r.container_name is None,
            r.options == options,
    {
        let root = options.devenv_root.clone();
        let dotfile = match &options.devenv_dotfile {
            Some(d) => d.clone(),
            None => strutil::concat_strs(options.devenv_root.as_str(), "/.devenv"),
        };
        let dot_gc = strutil::concat_strs(dotfile.as_str(), "/gc");
        let home_gc = strutil::concat_strs(xdg_data_home, "/gc");
        let cachix_trusted_keys = strutil::concat_strs(xdg_data_home, "/cachix_trusted_keys.json");
        let runtime = hashing::runtime_dir(tmpdir, dotfile.as_str());
        let tmp = String::from_str(tmpdir);
        Devenv {
            options,
            paths: ProjectPaths {
                root,
                dotfile,
                dot_gc,
                home_gc,
                cachix_trusted_keys,
                tmpdir: tmp,
                runtime,
            },
            assembly: AssemblyGate::new(),
            service_group: ServiceGroup::new(),
            container_name: None,
        }
    }

    /// The log file of the tracked service group.
    pub fn processes_log(&self) -> (r: String)
        ensures
            r@ == self.paths.dotfile@ + "/processes.log"@,
    {
        strutil::concat_strs(self.paths.dotfile.as_str(), "/processes.log")
    }

    /// The pid file of the tracked service group.
    pub fn processes_pid(&self) -> (r: String)
        ensures
            r@ == self.paths.dotfile@ + "/processes.pid"@,
    {
        strutil::concat_strs(self.paths.dotfile.as_str(), "/processes.pid")
    }

    /// The wrapper script the service group is launched through.
    pub fn processes_script(&self) -> (r: String)
        ensures
            r@ == self.paths.dotfile@ + "/processes"@,
    {
        strutil::concat_strs(self.paths.dotfile.as_str(), "/processes")
    }

    /// A state file under the state directory.
    pub fn state_file(&self, name: &str) -> (r: String)
        ensures
            r@ == self.paths.dotfile@ + "/"@ + name@,
    {
        let base = strutil::concat_strs(self.paths.dotfile.as_str(), "/");
        strutil::concat_strs(base.as_str(), name)
    }

    /// A GC root under the per-state GC directory.
    pub fn gc_root(&self, name: &str) -> (r: String)
        ensures
            r@ == self.paths.dot_gc@ + "/"@ + name@,
    {
        let base = strutil::concat_strs(self.paths.dot_gc.as_str(), "/");
        strutil::concat_strs(base.as_str(), name)
    }

    /// The rendered environment-specification file at the project root.
    pub fn flake_path(&self) -> (r: String)
        ensures
            r@ == self.paths.root@ + "/.devenv.flake.nix"@,
    {
        strutil::concat_strs(self.paths.root.as_str(), "/.devenv.flake.nix")
    }

    /// Whether ad-hoc overrides were supplied.
    pub fn has_overrides(&self) -> (r: bool)
        ensures
            r == (self.options.cli_options@.len() > 0),
    {
        self.options.cli_options.len() > 0
    }
}

/// Whether the evaluated process set is non-empty: anything but the empty
/// attribute set, after trimming whitespace.
pub fn processes_defined(eval_output: &str) -> (r: bool)
    ensures
        r == (strutil::trimmed(eval_output@) != "{}"@),
{
    let chars = strutil::chars_of(eval_output);
    let t = strutil::trim_chars(&chars);
    let t_str = strutil::string_of(&t);
    !strutil::str_eq(t_str.as_str(), "{}")
}

/// One declared build input of the materialized environment: a file path,
/// or something else (an environment variable, an unresolvable input).
pub enum DeclaredInput {
    File(String),
    Other,
}

/// The views of the file paths among the declared inputs, excluding the
/// option-overlay file.
pub open spec fn input_path_views(
    inputs: Seq<DeclaredInput>,
    overlay_path: Seq<char>,
) -> Seq<Seq<char>> {
    inputs.filter(
        |i: DeclaredInput| i matches DeclaredInput::File(p) && p@ != overlay_path,
    ).map_values(
        |i: DeclaredInput|
            match i {
                DeclaredInput::File(p) => p@,
                DeclaredInput::Other => Seq::empty(),
            },
    )
}

/// The content of the declared-input list artifact: the file-type inputs,
/// one per line, leaving out the option-overlay file so that an override
/// does not look like a changed input on every invocation.
pub fn input_paths_content(inputs: &Vec<DeclaredInput>, overlay_path: &str) -> (r: String)
    ensures
        r@ == strutil::joined(input_path_views(inputs@, overlay_path@), "\n"@),
{
    let mut files: Vec<String> = Vec::new();
    let mut i: usize = 0;
    proof {
        reveal(Seq::filter);
        assert(inputs@.take(0) =~= Seq::<DeclaredInput>::empty());
        assert(files@.map_values(|s: String| s@) =~= input_path_views(inputs@.take(0), overlay_path@));
    }
    while i < inputs.len()
        invariant
            i <= inputs@.len(),
            files@.map_values(|s: String| s@) == input_path_views(
                inputs@.take(i as int),
                overlay_path@,
            ),
        decreases inputs@.len() - i,
    {
        let ghost prev = files@.map_values(|s: String| s@);
        let ghost e = inputs@[i as int];
        match &inputs[i] {
            DeclaredInput::File(p) => {
                if !strutil::str_eq(p.as_str(), overlay_path) {
                    files.push(p.clone());
                    proof {
                        assert(files@.map_values(|s: String| s@) =~= prev.push(p@));
                    }
                }
            },
            DeclaredInput::Other => {},
        }
        proof {
            let pred2 = |x: DeclaredInput| x matches DeclaredInput::File(q)
                && q@ != overlay_path@;
            assert(inputs@.take(i + 1) =~= inputs@.take(i as int).push(e));
            strutil::lemma_filter_push(inputs@.take(i as int), pred2, e);
            if pred2(e) {
                assert(input_path_views(inputs@.take(i + 1), overlay_path@)
                    =~= input_path_views(inputs@.take(i as int), overlay_path@).push(
                    match e {
                        DeclaredInput::File(q) => q@,
                        DeclaredInput::Other => Seq::empty(),
                    },
                ));
            } else {
                assert(input_path_views(inputs@.take(i + 1), overlay_path@)
                    =~= input_path_views(inputs@.take(i as int), overlay_path@));
            }
        }
        i = i + 1;
    }
    proof {
        assert(inputs@.take(inputs@.len() as int) =~= inputs@);
    }
    strutil::join_with(&files, "\n")
}

} // verus!
