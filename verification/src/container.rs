//! The container pipeline: three chained stages (derivation build, copy
//! script, run script), each keyed by a sanitized container name and a
//! stage-specific GC root suffix. The pipeline state machine admits each
//! stage only after the previous one completed, and fails fast on a
//! platform that cannot produce containers.

use vstd::prelude::*;

use crate::errors::OrchestratorError;
use crate::sanitize_container_name;
use crate::strutil;

verus! {

/// The sanitized form of a container name: only alphanumeric characters,
/// `-` and `_` survive.
pub open spec fn sanitized(s: Seq<char>) -> Seq<char> {
    s.filter(|c: char| strutil::keeps_in_container_name(c))
}

/// The three stages of the pipeline.
#[derive(Clone, Copy, PartialEq, Eq, Structural)]
pub enum ContainerStage {
    Derivation,
    Copy,
    Run,
}

/// The attribute suffix of a stage.
pub open spec fn stage_attr_suffix(stage: ContainerStage) -> Seq<char> {
    match stage {
        ContainerStage::Derivation => ".derivation"@,
        ContainerStage::Copy => ".copyScript"@,
        ContainerStage::Run => ".dockerRun"@,
    }
}

/// The GC-root suffix of a stage.
pub open spec fn stage_root_suffix(stage: ContainerStage) -> Seq<char> {
    match stage {
        ContainerStage::Derivation => "-derivation"@,
        ContainerStage::Copy => "-copy"@,
        ContainerStage::Run => "-run"@,
    }
}

/// The build attribute of a stage, keyed by the container name as given.
pub fn container_attr(name: &str, stage: ContainerStage) -> (r: String)
    ensures
        r@ == "devenv.containers."@ + name@ + stage_attr_suffix(stage),
{
    let mut out = String::from_str("devenv.containers.");
    out.append(name);
    match stage {
        ContainerStage::Derivation => out.append(".derivation"),
        ContainerStage::Copy => out.append(".copyScript"),
        ContainerStage::Run => out.append(".dockerRun"),
    }
    out
}

/// The GC-root name of a stage, keyed by the sanitized container name.
pub fn container_gc_root(name: &str, stage: ContainerStage) -> (r: String)
    ensures
        r@ == "container-"@ + sanitized(name@) + stage_root_suffix(stage),
{
    let clean = sanitize_container_name(name);
    let mut out = String::from_str("container-");
    out.append(clean.as_str());
    match stage {
        ContainerStage::Derivation => out.append("-derivation"),
        ContainerStage::Copy => out.append("-copy"),
        ContainerStage::Run => out.append("-run"),
    }
    out
}

/// The registry argument handed to the copy script: the registry itself, or
/// the literal `false` when none was given.
pub fn registry_arg(registry: Option<&String>) -> (r: String)
    ensures
        match registry {
            Some(reg) => r@ == reg@,
            None => r@ == "false"@,
        },
{
    match registry {
        Some(reg) => reg.clone(),
        None => String::from_str("false"),
    }
}

/// The registry that a `run` forces for its copy stage: the local container
/// daemon.
pub fn run_registry() -> (r: String)
    ensures
        r@ == "docker-daemon:"@,
{
    String::from_str("docker-daemon:")
}

/// What one backend build for a pipeline stage needs: the attribute to
/// build and the GC-root name for its output.
#[derive(Debug)]
pub struct BuildRequest {
    pub attr: String,
    pub gc_root: String,
}

/// The pipeline state: whether this platform can produce containers, the
/// derivation store path once its build completed, and whether the copy
/// stage completed.
pub struct ContainerPipeline {
    pub supported: bool,
    pub derivation: Option<String>,
    pub copied: bool,
}

impl ContainerPipeline {
    /// The pipeline never reaches a later stage without the earlier ones: a
    /// completed copy implies a built derivation, and any progress implies
    /// the platform gate passed.
    pub open spec fn wf(&self) -> bool {
        &&& self.copied ==> self.derivation is Some
        &&& self.derivation is Some ==> self.supported
    }

    /// A fresh pipeline: nothing built, nothing copied.
    pub fn new(supported: bool) -> (r: ContainerPipeline)
        ensures
            r.supported == supported,
            r.derivation is None,
            !r.copied,
            r.wf(),
    {
        ContainerPipeline { supported, derivation: None, copied: false }
    }

    /// The first step of every pipeline operation: on a platform that
    /// cannot produce containers it fails with `UnsupportedPlatform`
    /// before any build.
    pub fn derivation_request(&self, name: &str) -> (r: Result<
        BuildRequest,
        OrchestratorError,
    >)
        ensures
            match r {
                Ok(req) => self.supported && req.attr@ == "devenv.containers."@ + name@
                    + ".derivation"@ && req.gc_root@ == "container-"@ + sanitized(name@)
                    + "-derivation"@,
                Err(e) => !self.supported && e == OrchestratorError::UnsupportedPlatform,
            },
    {
        if !self.supported {
            return Err(OrchestratorError::UnsupportedPlatform);
        }
        Ok(
            BuildRequest {
                attr: container_attr(name, ContainerStage::Derivation),
                gc_root: container_gc_root(name, ContainerStage::Derivation),
            },
        )
    }

    /// Records the store path of the completed derivation build.
    pub fn record_derivation(&mut self, path: String)
        requires
            old(self).supported,
        ensures
            final(self).derivation == Some(path),
            final(self).supported == old(self).supported,
            final(self).copied == old(self).copied,
            old(self).wf() ==> final(self).wf(),
    {
        self.derivation = Some(path);
    }

    /// The copy-script build: admissible only once the derivation build has
    /// completed.
    pub fn copy_request(&self, name: &str) -> (r: BuildRequest)
        requires
            self.derivation is Some,
        ensures
            r.attr@ == "devenv.containers."@ + name@ + ".copyScript"@,
            r.gc_root@ == "container-"@ + sanitized(name@) + "-copy"@,
    {
        BuildRequest {
            attr: container_attr(name, ContainerStage::Copy),
            gc_root: container_gc_root(name, ContainerStage::Copy),
        }
    }

    /// The copy-script invocation: the derivation path, then the registry
    /// (or `false`), then the caller's extra arguments, in that order.
    pub fn copy_invocation(&self, registry: Option<&String>, copy_args: &Vec<String>) -> (r: Vec<
        String,
    >)
        requires
            self.derivation is Some,
        ensures
            r@.map_values(|s: String| s@) == seq![self.derivation->0@].push(
                match registry {
                    Some(reg) => reg@,
                    None => "false"@,
                },
            ) + copy_args@.map_values(|s: String| s@),
    {
        let mut args: Vec<String> = Vec::new();
        match &self.derivation {
            Some(path) => args.push(path.clone()),
            None => {},
        }
        args.push(registry_arg(registry));
        let ghost base = args@.map_values(|s: String| s@);
        let mut i: usize = 0;
        proof {
            assert(base =~= seq![self.derivation->0@].push(
                match registry {
                    Some(reg) => reg@,
                    None => "false"@,
                },
            ));
            assert(copy_args@.map_values(|s: String| s@).take(0) =~= Seq::<Seq<char>>::empty());
            assert(args@.map_values(|s: String| s@) =~= base + copy_args@.map_values(
                |s: String| s@,
            ).take(0));
        }
        while i < copy_args.len()
            invariant
                i <= copy_args@.len(),
                args@.map_values(|s: String| s@) == base + copy_args@.map_values(
                    |s: String| s@,
                ).take(i as int),
            decreases copy_args@.len() - i,
        {
            let ghost prev = args@.map_values(|s: String| s@);
            let a = copy_args[i].clone();
            args.push(a);
            proof {
                let cav = copy_args@.map_values(|s: String| s@);
                assert(args@.map_values(|s: String| s@) =~= prev.push(cav[i as int]));
                assert(cav.take(i + 1) =~= cav.take(i as int).push(cav[i as int]));
                assert(base + cav.take(i + 1) =~= (base + cav.take(i as int)).push(
                    cav[i as int],
                ));
            }
            i = i + 1;
        }
        proof {
            let cav = copy_args@.map_values(|s: String| s@);
            assert(cav.take(copy_args@.len() as int) =~= cav);
        }
        args
    }

    /// Records the copy script's exit: a non-zero exit fails the pipeline
    /// with `ContainerOperationFailed` naming the copy stage; a success
    /// completes the copy stage.
    pub fn record_copy(&mut self, success: bool) -> (r: Result<(), OrchestratorError>)
        requires
            old(self).derivation is Some,
        ensures
            final(self).supported == old(self).supported,
            final(self).derivation == old(self).derivation,
            if success {
                r is Ok && final(self).copied
            } else {
                r matches Err(e) && e matches OrchestratorError::ContainerOperationFailed(stage)
                    && stage@ == "copy"@ && final(self).copied == old(self).copied
            },
            old(self).wf() ==> final(self).wf(),
    {
        if success {
            self.copied = true;
            Ok(())
        } else {
            Err(OrchestratorError::ContainerOperationFailed(copy_stage_name()))
        }
    }

    /// The run-script build: admissible only once the copy stage has
    /// completed, so a `run` can never build or invoke the run script
    /// before a successful copy.
    pub fn run_request(&self, name: &str) -> (r: BuildRequest)
        requires
            self.copied,
        ensures
            r.attr@ == "devenv.containers."@ + name@ + ".dockerRun"@,
            r.gc_root@ == "container-"@ + sanitized(name@) + "-run"@,
    {
        BuildRequest {
            attr: container_attr(name, ContainerStage::Run),
            gc_root: container_gc_root(name, ContainerStage::Run),
        }
    }

    /// Turns the run script's exit into the pipeline's result: a non-zero
    /// exit fails with `ContainerOperationFailed` naming the run stage.
    pub fn record_run(&self, success: bool) -> (r: Result<(), OrchestratorError>)
        requires
            self.copied,
        ensures
            if success {
                r is Ok
            } else {
                r matches Err(e) && e matches OrchestratorError::ContainerOperationFailed(stage)
                    && stage@ == "run"@
            },
    {
        if success {
            Ok(())
        } else {
            Err(OrchestratorError::ContainerOperationFailed(run_stage_name()))
        }
    }
}

/// The name of the copy stage, as `ContainerOperationFailed` carries it.
fn copy_stage_name() -> (r: String)
    ensures
        r@ == "copy"@,
{
    String::from_str("copy")
}

/// The name of the run stage, as `ContainerOperationFailed` carries it.
fn run_stage_name() -> (r: String)
    ensures
        r@ == "run"@,
{
    String::from_str("run")
}

/// Container pipeline ordering: in every well-formed pipeline state, a
/// completed copy stage implies the derivation build completed first, and
/// any completed build implies the platform gate passed; together with the
/// admissibility conditions of `copy_request`, `run_request` and
/// `record_run` this means the run script is never built or invoked before
/// a successful copy, and the copy script never before a successful
/// derivation build.
pub proof fn lemma_container_ordering(p: ContainerPipeline)
    requires
        p.wf(),
    ensures
        p.copied ==> p.derivation is Some,
        p.derivation is Some ==> p.supported,
{
}

} // verus!
