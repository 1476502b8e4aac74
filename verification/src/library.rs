//! The library build plan: an immutable description of how to produce one
//! library artifact. Every configuration call returns a new plan; executing a
//! plan resolves the artifact path, consults a presence-only cache, and either
//! reports the artifact up to date or assembles the toolchain invocation.
//!
//! The cache key is only "does the artifact path exist": it is handed in as a
//! plain bit, so a stricter policy (modification time, content hash) can be
//! substituted by the caller without touching the orchestration. Staleness of
//! an existing artifact against edited sources is deliberately not detected,
//! and the existence check is not atomic with the artifact's creation; both
//! are open questions of the design, not accidents of this implementation.

use vstd::prelude::*;
use vstd::string::StringExecFns;

use crate::artifact::DepView;
use crate::artifact::Dependency;
use crate::artifact::extern_args;
use crate::artifact::push_extern_args;
use crate::names::derive_crate_name;
use crate::names::derived_name;
use crate::names::is_ident;
use crate::strnum::dec_int;
use crate::strnum::fmt_i32;
use crate::term::colored;
use crate::term::colored_text;

verus! {

/// The mathematical model of a library build plan.
#[verifier::ext_equal]
pub ghost struct LibPlanView {
    pub crate_name: Seq<char>,
    pub path: Seq<char>,
    pub proc_macro: bool,
    pub edition: Seq<char>,
    pub dependencies: Seq<DepView>,
    pub features: Seq<Seq<char>>,
    pub optimization: int,
    pub toolchain: Seq<char>,
    pub cache_dir: Seq<char>,
}

impl LibPlanView {
    /// A well-formed plan: a toolchain-legal symbolic name, a non-negative
    /// optimization level, and well-formed attached references.
    pub open spec fn wf(self) -> bool {
        &&& is_ident(self.crate_name)
        &&& self.optimization >= 0
        &&& forall|i: int| 0 <= i < self.dependencies.len() ==> self.dependencies[i].wf()
    }
}

/// The artifact file extension a plan's kind selects: a macro-plugin build
/// produces a dynamic library, a plain build a static one.
pub open spec fn lib_extension(proc_macro: bool) -> Seq<char> {
    if proc_macro {
        ".so"@
    } else {
        ".rlib"@
    }
}

/// The artifact path a plan resolves: `<cacheDir>/lib<name><extension>`. The
/// same symbolic name serves as declared crate name and as artifact file name,
/// so the two can never diverge.
pub open spec fn artifact_path_of(p: LibPlanView) -> Seq<char> {
    p.cache_dir + "/lib"@ + p.crate_name + lib_extension(p.proc_macro)
}

/// The artifact reference a plan yields when its build is satisfied.
pub open spec fn dep_of(p: LibPlanView) -> DepView {
    DepView { crate_name: p.crate_name, rlib_path: artifact_path_of(p) }
}

/// The artifact-kind arguments: a macro-plugin build declares the plugin crate
/// type and its linkage to the compiler's plugin support crate; a plain build
/// declares an ordinary library.
pub open spec fn crate_type_args(proc_macro: bool) -> Seq<Seq<char>> {
    if proc_macro {
        seq!["--crate-type"@, "proc-macro"@, "--extern"@, "proc_macro"@]
    } else {
        seq!["--crate-type"@, "lib"@]
    }
}

/// The value of one conditional-compilation argument: `feature="<name>"`.
pub open spec fn feature_value(f: Seq<char>) -> Seq<char> {
    "feature=\""@ + f + "\""@
}

/// The conditional-compilation arguments for a feature list, in order.
pub open spec fn cfg_args(features: Seq<Seq<char>>) -> Seq<Seq<char>>
    decreases features.len(),
{
    if features.len() == 0 {
        Seq::<Seq<char>>::empty()
    } else {
        cfg_args(features.drop_last()) + seq!["--cfg"@, feature_value(features.last())]
    }
}

/// The arguments common to the plugin and the plain variant of a plan: all of
/// the invocation except the leading artifact-kind arguments.
pub open spec fn lib_common_args(p: LibPlanView) -> Seq<Seq<char>> {
    seq![
        "--crate-name"@,
        p.crate_name,
        "--edition"@,
        p.edition,
        "--out-dir"@,
        p.cache_dir,
        p.path + "/src/lib.rs"@,
    ] + extern_args(p.dependencies) + cfg_args(p.features) + seq![
        "-L"@,
        p.cache_dir,
        "-C"@,
        "opt-level="@ + dec_int(p.optimization),
    ]
}

/// The full toolchain invocation of a library plan: the toolchain itself,
/// colorized diagnostics, the artifact-kind arguments, then the rest.
pub open spec fn lib_command(p: LibPlanView) -> Seq<Seq<char>> {
    seq![p.toolchain, "--color"@, "always"@] + crate_type_args(p.proc_macro) + lib_common_args(p)
}

/// What executing a plan decides once the cache has been consulted.
pub ghost enum LibDecision {
    /// The artifact already exists: the build is satisfied by this reference,
    /// and no invocation is assembled.
    UpToDate(DepView),
    /// The artifact is absent: this invocation must run.
    Invoke(Seq<Seq<char>>),
}

/// The caching rule: an existing artifact short-circuits the build, an absent
/// one leads to exactly one toolchain invocation.
pub open spec fn lib_decision(p: LibPlanView, artifact_exists: bool) -> LibDecision {
    if artifact_exists {
        LibDecision::UpToDate(dep_of(p))
    } else {
        LibDecision::Invoke(lib_command(p))
    }
}

/// How a finished invocation is classified: a zero exit yields the plan's
/// artifact reference, a non-zero exit a build failure and nothing else.
pub open spec fn lib_outcome(p: LibPlanView, toolchain_succeeded: bool) -> Result<DepView, ()> {
    if toolchain_succeeded {
        Ok(dep_of(p))
    } else {
        Err(())
    }
}

/// What a library build does next, as decided from the cache lookup.
pub enum BuildAction {
    /// The artifact already exists; the build returns this reference without
    /// running the toolchain.
    UpToDate(Dependency),
    /// The artifact is absent; this invocation, program first, must run.
    Invoke(Vec<String>),
}

/// An immutable, incrementally configured description of how to produce one
/// library artifact. Every configuration method returns a new value, so a
/// partially specialized plan can be reused without aliasing hazards.
pub struct DependencyBuilder {
    crate_name: String,
    path: String,
    proc_macro: bool,
    edition: String,
    dependencies: Vec<Dependency>,
    features: Vec<String>,
    optimization: i32,
    toolchain: String,
    cache_dir: String,
}

impl View for DependencyBuilder {
    type V = LibPlanView;

    closed spec fn view(&self) -> LibPlanView {
        LibPlanView {
            crate_name: self.crate_name@,
            path: self.path@,
            proc_macro: self.proc_macro,
            edition: self.edition@,
            dependencies: self.dependencies.deep_view(),
            features: self.features.deep_view(),
            optimization: self.optimization as int,
            toolchain: self.toolchain@,
            cache_dir: self.cache_dir@,
        }
    }
}

impl DependencyBuilder {
    /// A fresh plan for the library rooted at `path`: the symbolic name is
    /// derived from the final path segment, the dialect baseline is "2021",
    /// and the conventional cache directory and toolchain are selected.
    pub fn new(path: &str) -> (r: DependencyBuilder)
        requires
            is_ident(derived_name(path@)),
        ensures
            r@ == (LibPlanView {
                crate_name: derived_name(path@),
                path: path@,
                proc_macro: false,
                edition: "2021"@,
                dependencies: Seq::<DepView>::empty(),
                features: Seq::<Seq<char>>::empty(),
                optimization: 0,
                toolchain: "rustc"@,
                cache_dir: ".sloop"@,
            }),
            r@.wf(),
    {
        let crate_name = derive_crate_name(path);
        let r = DependencyBuilder {
            crate_name,
            path: String::from_str(path),
            proc_macro: false,
            edition: String::from_str("2021"),
            dependencies: Vec::new(),
            features: Vec::new(),
            optimization: 0,
            toolchain: String::from_str("rustc"),
            cache_dir: String::from_str(".sloop"),
        };
        proof {
            assert(r@.dependencies =~= Seq::<DepView>::empty());
            assert(r@.features =~= Seq::<Seq<char>>::empty());
        }
        r
    }

    /// Attaches one artifact reference; the linkage declarations keep the
    /// attachment order.
    pub fn with_dependency(self, dependency: &Dependency) -> (r: DependencyBuilder)
        ensures
            r@ == (LibPlanView { dependencies: self@.dependencies.push(dependency@), ..self@ }),
    {
        let mut dependencies = self.dependencies;
        dependencies.push(dependency.clone());
        let r = DependencyBuilder { dependencies, ..self };
        proof {
            assert(r@.dependencies =~= self@.dependencies.push(dependency@));
        }
        r
    }

    /// Appends one feature flag.
    pub fn with_feature(self, feature: &str) -> (r: DependencyBuilder)
        ensures
            r@ == (LibPlanView { features: self@.features.push(feature@), ..self@ }),
    {
        let mut features = self.features;
        features.push(String::from_str(feature));
        let r = DependencyBuilder { features, ..self };
        proof {
            assert(r@.features =~= self@.features.push(feature@));
        }
        r
    }

    /// Overrides the dialect version.
    pub fn edition(self, edition: &str) -> (r: DependencyBuilder)
        ensures
            r@ == (LibPlanView { edition: edition@, ..self@ }),
    {
        DependencyBuilder { edition: String::from_str(edition), ..self }
    }

    /// Overrides the derived symbolic name.
    pub fn crate_name(self, crate_name: &str) -> (r: DependencyBuilder)
        requires
            is_ident(crate_name@),
        ensures
            r@ == (LibPlanView { crate_name: crate_name@, ..self@ }),
    {
        DependencyBuilder { crate_name: String::from_str(crate_name), ..self }
    }

    /// Marks the plan as a macro-plugin build, which changes the artifact kind
    /// and the required linkage arguments.
    pub fn proc_macro(self, proc_macro: bool) -> (r: DependencyBuilder)
        ensures
            r@ == (LibPlanView { proc_macro, ..self@ }),
    {
        DependencyBuilder { proc_macro, ..self }
    }

    /// Sets the optimization level.
    pub fn optimization(self, optimization: i32) -> (r: DependencyBuilder)
        requires
            optimization >= 0,
        ensures
            r@ == (LibPlanView { optimization: optimization as int, ..self@ }),
    {
        DependencyBuilder { optimization, ..self }
    }

    /// Overrides the toolchain program.
    pub fn toolchain(self, toolchain: &str) -> (r: DependencyBuilder)
        ensures
            r@ == (LibPlanView { toolchain: toolchain@, ..self@ }),
    {
        DependencyBuilder { toolchain: String::from_str(toolchain), ..self }
    }

    /// Overrides the cache directory.
    pub fn cache_dir(self, cache_dir: &str) -> (r: DependencyBuilder)
        ensures
            r@ == (LibPlanView { cache_dir: cache_dir@, ..self@ }),
    {
        DependencyBuilder { cache_dir: String::from_str(cache_dir), ..self }
    }

    /// The "up to date" notice a cache hit emits: the plan's name, colored.
    pub fn up_to_date_notice(&self) -> (r: String)
        ensures
            r@ == colored_text(155, 255, 155, self@.crate_name) + " is up to date"@,
    {
        colored(155, 255, 155, self.crate_name.as_str()).concat(" is up to date")
    }

    /// The "building" notice a cache miss emits: the plan's name, colored.
    pub fn building_notice(&self) -> (r: String)
        ensures
            r@ == "Building "@ + colored_text(155, 255, 155, self@.crate_name),
    {
        String::from_str("Building ").concat(colored(155, 255, 155, self.crate_name.as_str()).as_str())
    }

    /// The symbolic name the plan currently carries.
    pub fn symbolic_name(&self) -> (r: &str)
        ensures
            r@ == self@.crate_name,
    {
        self.crate_name.as_str()
    }

    /// Resolves the path of the artifact this plan would produce. This path is
    /// the durable cache key: a filesystem entry there satisfies the build.
    pub fn artifact_path(&self) -> (r: String)
        ensures
            r@ == artifact_path_of(self@),
    {
        let extension = if self.proc_macro {
            ".so"
        } else {
            ".rlib"
        };
        let r = self.cache_dir.clone().concat("/lib").concat(self.crate_name.as_str()).concat(
            extension,
        );
        proof {
            assert(r@ =~= artifact_path_of(self@));
        }
        r
    }

    /// The artifact reference this plan yields when its build is satisfied.
    pub fn artifact(&self) -> (d: Dependency)
        ensures
            d@ == dep_of(self@),
            self@.wf() ==> d@.wf(),
    {
        let d = Dependency::from_parts(self.crate_name.clone(), self.artifact_path());
        proof {
            assert(d@ =~= dep_of(self@));
        }
        d
    }

    /// Assembles the full toolchain invocation for this plan, program first.
    pub fn command(&self) -> (cmd: Vec<String>)
        ensures
            cmd.deep_view() == lib_command(self@),
    {
        let mut cmd: Vec<String> = Vec::new();
        cmd.push(self.toolchain.clone());
        cmd.push(String::from_str("--color"));
        cmd.push(String::from_str("always"));
        if self.proc_macro {
            cmd.push(String::from_str("--crate-type"));
            cmd.push(String::from_str("proc-macro"));
            cmd.push(String::from_str("--extern"));
            cmd.push(String::from_str("proc_macro"));
        } else {
            cmd.push(String::from_str("--crate-type"));
            cmd.push(String::from_str("lib"));
        }
        cmd.push(String::from_str("--crate-name"));
        cmd.push(self.crate_name.clone());
        cmd.push(String::from_str("--edition"));
        cmd.push(self.edition.clone());
        cmd.push(String::from_str("--out-dir"));
        cmd.push(self.cache_dir.clone());
        cmd.push(self.path.clone().concat("/src/lib.rs"));
        proof {
            assert(cmd.deep_view() =~= seq![self@.toolchain, "--color"@, "always"@]
                + crate_type_args(self@.proc_macro) + seq![
                "--crate-name"@,
                self@.crate_name,
                "--edition"@,
                self@.edition,
                "--out-dir"@,
                self@.cache_dir,
                self@.path + "/src/lib.rs"@,
            ]);
        }
        push_extern_args(&mut cmd, &self.dependencies);
        push_cfg_args(&mut cmd, &self.features);
        let ghost mid = cmd.deep_view();
        cmd.push(String::from_str("-L"));
        cmd.push(self.cache_dir.clone());
        cmd.push(String::from_str("-C"));
        let level = fmt_i32(self.optimization);
        let level_arg = String::from_str("opt-level=").concat(level.as_str());
        proof {
            assert(level_arg@ =~= "opt-level="@ + dec_int(self@.optimization));
        }
        cmd.push(level_arg);
        proof {
            assert(cmd.deep_view() =~= mid + seq![
                "-L"@,
                self@.cache_dir,
                "-C"@,
                "opt-level="@ + dec_int(self@.optimization),
            ]);
            assert(cmd.deep_view() =~= lib_command(self@));
        }
        cmd
    }

    /// Decides a build from the cache lookup: an existing artifact is reported
    /// up to date and returned at once, an absent one yields the invocation
    /// that must run.
    pub fn build_action(&self, artifact_exists: bool) -> (a: BuildAction)
        ensures
            artifact_exists ==> (a matches BuildAction::UpToDate(d) && d@ == dep_of(self@)),
            !artifact_exists ==> (a matches BuildAction::Invoke(cmd) && cmd.deep_view()
                == lib_command(self@)),
            (a matches BuildAction::UpToDate(d) ==> lib_decision(self@, artifact_exists)
                == LibDecision::UpToDate(d@)),
            (a matches BuildAction::Invoke(cmd) ==> lib_decision(self@, artifact_exists)
                == LibDecision::Invoke(cmd.deep_view())),
    {
        if artifact_exists {
            BuildAction::UpToDate(self.artifact())
        } else {
            BuildAction::Invoke(self.command())
        }
    }

    /// Classifies the toolchain's exit after an invocation ran: success yields
    /// the plan's artifact reference, failure a build error and never a
    /// reference. Diagnostic text lives only on the relayed streams.
    pub fn conclude(&self, toolchain_succeeded: bool) -> (r: Result<Dependency, ()>)
        ensures
            toolchain_succeeded ==> (r matches Ok(d) && d@ == dep_of(self@)),
            !toolchain_succeeded ==> r is Err,
            (r matches Ok(d) ==> lib_outcome(self@, toolchain_succeeded) == Ok::<DepView, ()>(
                d@,
            )),
            r is Err ==> lib_outcome(self@, toolchain_succeeded) == Err::<DepView, ()>(()),
    {
        if toolchain_succeeded {
            Ok(self.artifact())
        } else {
            Err(())
        }
    }
}

/// What a finished invocation relays of the captured standard streams: a
/// failed exit hands both captured streams back verbatim, byte for byte, to
/// be copied onto the caller's own streams; a successful exit relays nothing.
pub fn relayed_streams(
    stdout_bytes: Vec<u8>,
    stderr_bytes: Vec<u8>,
    toolchain_succeeded: bool,
) -> (r: Option<(Vec<u8>, Vec<u8>)>)
    ensures
        !toolchain_succeeded ==> (r matches Some(s) && s.0@ == stdout_bytes@ && s.1@
            == stderr_bytes@),
        toolchain_succeeded ==> r is None,
{
    if toolchain_succeeded {
        None
    } else {
        Some((stdout_bytes, stderr_bytes))
    }
}

/// Appends the conditional-compilation arguments of `features` to a command
/// under assembly.
fn push_cfg_args(cmd: &mut Vec<String>, features: &Vec<String>)
    ensures
        final(cmd).deep_view() == old(cmd).deep_view() + cfg_args(features.deep_view()),
{
    let ghost all = features.deep_view();
    proof {
        assert(cfg_args(all.take(0)) =~= Seq::<Seq<char>>::empty());
        assert(cmd.deep_view() =~= cmd.deep_view() + cfg_args(all.take(0)));
    }
    let mut i: usize = 0;
    while i < features.len()
        invariant
            i <= features.len(),
            all == features.deep_view(),
            cmd.deep_view() == old(cmd).deep_view() + cfg_args(all.take(i as int)),
        decreases features.len() - i,
    {
        let ghost pre = cmd.deep_view();
        cmd.push(String::from_str("--cfg"));
        let value = String::from_str("feature=\"").concat(features[i].as_str()).concat("\"");
        proof {
            assert(value@ =~= feature_value(all[i as int]));
        }
        cmd.push(value);
        proof {
            assert(cmd.deep_view() =~= pre.push("--cfg"@).push(feature_value(all[i as int])));
            assert(all.take(i as int + 1).drop_last() =~= all.take(i as int));
            assert(all.take(i as int + 1).last() == all[i as int]);
            assert(cfg_args(all.take(i as int + 1)) == cfg_args(all.take(i as int)) + seq![
                "--cfg"@,
                feature_value(all[i as int]),
            ]);
            assert(cmd.deep_view() =~= old(cmd).deep_view() + cfg_args(all.take(i as int + 1)));
        }
        i = i + 1;
    }
    proof {
        assert(all.take(features.len() as int) =~= all);
    }
}

} // verus!
