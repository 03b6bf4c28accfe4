use crate::attr::{
    classify_path, classify_spec, default_attr_spec, expand_attr_path, has_dot, named_attr_spec,
    BuildClassification,
};
use crate::error::NixError;
use crate::text::views;
use vstd::prelude::*;
use vstd::string::{StrSliceExecFns, StringExecFns};

verus! {

/// Options of one builder invocation.
pub struct BuildOpts {
    pub link: bool,
    pub report: bool,
    pub system: String,
}

/// The builder's argument list: optional no-link and output-path
/// reporting, the entry file, the target system when one is set, and the
/// attribute to build.
pub open spec fn build_args_spec(
    file: Seq<char>,
    name: Seq<char>,
    link: bool,
    report: bool,
    system: Seq<char>,
) -> Seq<Seq<char>> {
    seq!["build"@] + (if !link {
        seq!["--no-link"@]
    } else {
        Seq::empty()
    }) + (if report {
        seq!["--print-out-paths"@]
    } else {
        Seq::empty()
    }) + seq!["-f"@, file] + (if system.len() > 0 {
        seq!["--system"@, system]
    } else {
        Seq::empty()
    }) + seq![name]
}

/// Builds the external builder's argument list.
pub fn build_args(file: &str, name: &str, opts: &BuildOpts) -> (r: Vec<String>)
    ensures
        views(r@) == build_args_spec(file@, name@, opts.link, opts.report, opts.system@),
{
    let mut args: Vec<String> = Vec::new();
    args.push(String::from_str("build"));
    if !opts.link {
        args.push(String::from_str("--no-link"));
    }
    if opts.report {
        args.push(String::from_str("--print-out-paths"));
    }
    args.push(String::from_str("-f"));
    args.push(file.to_owned());
    if opts.system.as_str().unicode_len() > 0 {
        args.push(String::from_str("--system"));
        args.push(opts.system.clone());
    }
    args.push(name.to_owned());
    proof {
        assert(views(args@) =~= build_args_spec(
            file@,
            name@,
            opts.link,
            opts.report,
            opts.system@,
        ));
    }
    args
}

/// Options of an interactive shell launch.
pub struct ShellOpts {
    pub system: String,
}

/// The shell launcher's argument list: the entry file, the target system
/// when one is set, and the attribute to enter.
pub open spec fn shell_args_spec(file: Seq<char>, name: Seq<char>, system: Seq<char>) -> Seq<
    Seq<char>,
> {
    seq![file] + (if system.len() > 0 {
        seq!["--system"@, system]
    } else {
        Seq::empty()
    }) + seq!["-A"@, name]
}

/// Builds the interactive shell launcher's argument list.
pub fn shell_args(file: &str, name: &str, opts: &ShellOpts) -> (r: Vec<String>)
    ensures
        views(r@) == shell_args_spec(file@, name@, opts.system@),
{
    let mut args: Vec<String> = Vec::new();
    args.push(file.to_owned());
    if opts.system.as_str().unicode_len() > 0 {
        args.push(String::from_str("--system"));
        args.push(opts.system.clone());
    }
    args.push(String::from_str("-A"));
    args.push(name.to_owned());
    proof {
        assert(views(args@) =~= shell_args_spec(file@, name@, opts.system@));
    }
    args
}

/// The phases of one build command, in order.  The flow is linear and
/// fail-fast: the first failure is final, and no evaluator or builder
/// action is available before the entry-file check has passed.
#[derive(Debug, Clone, Copy, PartialEq, Eq, Structural)]
pub enum BuildPhase {
    /// Verifying that the entry file exists in the resolved project.
    CheckingFile,
    /// Determining the target system from the platform lookup.
    ResolvingSystem,
    /// Verifying that the target attribute exists in the project.
    CheckingAttr,
    /// Resolving the target's classification and display name.
    Classifying,
    /// Running the external builder.
    Building,
    /// The build succeeded.
    Done,
    /// A step failed; nothing further runs.
    Failed,
}

/// The request that starts a build: the entry file's resolved location,
/// the optional target name, the optional explicit system, and the
/// linking and output-printing options.
pub struct BuildRequest {
    pub entry_file: String,
    pub name: Option<String>,
    pub system_flag: Option<String>,
    pub link: bool,
    pub print_out_paths: bool,
}

/// The target attribute path resolved from a request's name and a system:
/// no name selects the default package on that system, a dotted name is
/// used verbatim, and a plain name is expanded into the package result.
pub open spec fn target_attr_spec(name: Option<String>, system: Seq<char>) -> Seq<char> {
    match name {
        None => default_attr_spec(system),
        Some(n) => if has_dot(n@) {
            n@
        } else {
            named_attr_spec(n@, system)
        },
    }
}

/// The build orchestrator: a linear state machine over the phases above.
/// The surrounding program performs one external action per phase and
/// reports its outcome; the machine decides the next step and carries the
/// resolved system and target attribute forward.
pub struct BuildFlow {
    pub phase: BuildPhase,
    pub request: BuildRequest,
    pub system: String,
    pub attr: String,
}

impl BuildFlow {
    /// Starts a build.  The first step is the entry-file check; no other
    /// action is reachable before it passes.
    pub fn start(request: BuildRequest) -> (f: BuildFlow)
        ensures
            f.phase == BuildPhase::CheckingFile,
            f.request == request,
    {
        BuildFlow { phase: BuildPhase::CheckingFile, request, system: String::new(), attr: String::new() }
    }

    /// Consumes the entry-file check.  A missing entry file aborts the
    /// whole command at once; otherwise the flow moves on to resolving
    /// the system — directly from the explicit flag when one was given,
    /// else through the platform lookup.
    pub fn on_file_check(&mut self, exists: bool) -> (r: Result<(), NixError>)
        requires
            old(self).phase == BuildPhase::CheckingFile,
        ensures
            final(self).request == old(self).request,
            !exists ==> final(self).phase == BuildPhase::Failed && (r matches Err(e)
                && e is FileNotFound),
            exists && old(self).request.system_flag is None ==> final(self).phase
                == BuildPhase::ResolvingSystem && r is Ok,
            exists ==> (old(self).request.system_flag matches Some(s) ==> final(self).phase
                == BuildPhase::CheckingAttr && final(self).system@ == s@ && final(self).attr@
                == target_attr_spec(old(self).request.name, s@) && r is Ok),
    {
        if !exists {
            self.phase = BuildPhase::Failed;
            return Err(NixError::FileNotFound);
        }
        let sys = match &self.request.system_flag {
            Some(s) => Some(s.clone()),
            None => None,
        };
        match sys {
            Some(s) => {
                let attr = expand_attr_path(&self.request.name, s.as_str());
                self.system = s;
                self.attr = attr;
                self.phase = BuildPhase::CheckingAttr;
                Ok(())
            },
            None => {
                self.phase = BuildPhase::ResolvingSystem;
                Ok(())
            },
        }
    }

    /// Consumes the platform lookup's outcome.  Success fixes the target
    /// system and attribute path; failure aborts with the underlying
    /// error.
    pub fn on_system(&mut self, fetched: Result<String, NixError>) -> (r: Result<(), NixError>)
        requires
            old(self).phase == BuildPhase::ResolvingSystem,
        ensures
            final(self).request == old(self).request,
            fetched matches Ok(s) ==> (final(self).phase == BuildPhase::CheckingAttr
                && final(self).system@ == s@
                && final(self).attr@ == target_attr_spec(old(self).request.name, s@)
                && r is Ok),
            fetched matches Err(e) ==> final(self).phase == BuildPhase::Failed && (r matches
            Err(e2) && e2 == e),
    {
        match fetched {
            Ok(s) => {
                let attr = expand_attr_path(&self.request.name, s.as_str());
                self.system = s;
                self.attr = attr;
                self.phase = BuildPhase::CheckingAttr;
                Ok(())
            },
            Err(e) => {
                self.phase = BuildPhase::Failed;
                Err(e)
            },
        }
    }

    /// Consumes the existence check's outcome: an absent attribute or a
    /// failed evaluation aborts, an existing one moves on to
    /// classification.
    pub fn on_exists(&mut self, outcome: Result<bool, NixError>) -> (r: Result<(), NixError>)
        requires
            old(self).phase == BuildPhase::CheckingAttr,
        ensures
            final(self).request == old(self).request,
            final(self).system == old(self).system,
            final(self).attr == old(self).attr,
            outcome matches Ok(true) ==> final(self).phase == BuildPhase::Classifying && r is Ok,
            outcome matches Ok(false) ==> final(self).phase == BuildPhase::Failed && (r matches
            Err(e) && e matches NixError::AttributeNotFound(a) && a@ == old(self).attr@),
            outcome matches Err(e) ==> final(self).phase == BuildPhase::Failed && (r matches
            Err(e2) && e2 == e),
    {
        match outcome {
            Ok(true) => {
                self.phase = BuildPhase::Classifying;
                Ok(())
            },
            Ok(false) => {
                self.phase = BuildPhase::Failed;
                Err(NixError::AttributeNotFound(self.attr.clone()))
            },
            Err(e) => {
                self.phase = BuildPhase::Failed;
                Err(e)
            },
        }
    }

    /// Consumes the display-name lookup's outcome and reports the
    /// target's classification and display name.  This step is purely
    /// informational: a non-textual name falls back to the raw attribute
    /// path and nothing fails here.
    pub fn on_classified(&mut self, display: Option<String>) -> (r: (BuildClassification, String))
        requires
            old(self).phase == BuildPhase::Classifying,
        ensures
            final(self).request == old(self).request,
            final(self).system == old(self).system,
            final(self).attr == old(self).attr,
            final(self).phase == BuildPhase::Building,
            r.0 == classify_spec(old(self).attr@),
            display matches Some(d) ==> r.1@ == d@,
            display is None ==> r.1@ == old(self).attr@,
    {
        let class = classify_path(self.attr.as_str());
        let shown = match display {
            Some(d) => d,
            None => self.attr.clone(),
        };
        self.phase = BuildPhase::Building;
        (class, shown)
    }

    /// The builder invocation for the resolved target: output paths are
    /// always reported back to the command, linking follows the request.
    pub fn builder_args(&self) -> (r: Vec<String>)
        requires
            self.phase == BuildPhase::Building,
        ensures
            views(r@) == build_args_spec(
                self.request.entry_file@,
                self.attr@,
                self.request.link,
                true,
                self.system@,
            ),
    {
        let opts = BuildOpts { link: self.request.link, report: true, system: self.system.clone() };
        build_args(self.request.entry_file.as_str(), self.attr.as_str(), &opts)
    }

    /// Consumes the builder's outcome: on success the reported output
    /// locations come back to the command, on failure the command aborts
    /// with the builder's diagnostics.
    pub fn on_build_result(&mut self, success: bool, out_paths: Vec<String>, stderr: &str) -> (r:
        Result<Vec<String>, NixError>)
        requires
            old(self).phase == BuildPhase::Building,
        ensures
            final(self).request == old(self).request,
            success ==> final(self).phase == BuildPhase::Done && (r matches Ok(v) && v@
                == out_paths@),
            !success ==> final(self).phase == BuildPhase::Failed && (r matches Err(e)
                && e matches NixError::BuildFailure(d) && d@ == stderr@),
    {
        if success {
            self.phase = BuildPhase::Done;
            Ok(out_paths)
        } else {
            self.phase = BuildPhase::Failed;
            Err(NixError::BuildFailure(stderr.to_owned()))
        }
    }
}

} // verus!
