//! The executable build plan: the same structural-update discipline as the
//! library plan, consuming artifact references as link dependencies. There is
//! no cache: an executable is rebuilt on every execution. Its dialect baseline
//! is "2018" while the library plan's is "2021"; the discrepancy is inherited
//! and kept on purpose rather than silently unified.

use vstd::prelude::*;
use vstd::string::StringExecFns;

use crate::artifact::DepView;
use crate::artifact::Dependency;
use crate::artifact::extern_args;
use crate::artifact::push_extern_args;
use crate::names::is_ident;
use crate::term::colored;
use crate::term::colored_text;

verus! {

/// The kind of target an executable plan builds.
#[derive(Clone, Copy, Debug, PartialEq, Eq, Structural)]
pub enum BuildKind {
    /// No artifact-kind argument is passed; the toolchain decides.
    Plain,
    /// An executable program.
    Binary,
    /// A reserved, not yet supported kind. Callers must never select it for
    /// execution: no invocation is defined for it, and the executor aborts
    /// rather than continue in an undefined configuration.
    Library,
}

/// The mathematical model of an executable build plan.
#[verifier::ext_equal]
pub ghost struct ExePlanView {
    pub kind: BuildKind,
    pub name: Option<Seq<char>>,
    pub entrypoint: Seq<char>,
    pub edition: Seq<char>,
    pub dependencies: Seq<DepView>,
    pub toolchain: Seq<char>,
    pub cache_dir: Seq<char>,
}

impl ExePlanView {
    /// A well-formed plan: a toolchain-legal name when one was supplied, and
    /// well-formed attached references.
    pub open spec fn wf(self) -> bool {
        &&& (self.name matches Some(n) ==> is_ident(n))
        &&& forall|i: int| 0 <= i < self.dependencies.len() ==> self.dependencies[i].wf()
    }
}

/// The artifact-kind arguments of an executable plan. Only the binary kind
/// passes one; for the plain kind the toolchain is left to decide. The library
/// kind has no invocation at all: it is rejected before assembly.
pub open spec fn exe_kind_args(kind: BuildKind) -> Seq<Seq<char>> {
    if kind is Binary {
        seq!["--crate-type"@, "bin"@]
    } else {
        Seq::<Seq<char>>::empty()
    }
}

/// The name a plan shows in its build notice: the supplied one, or nothing.
pub open spec fn display_name_of(name: Option<Seq<char>>) -> Seq<char> {
    match name {
        Some(n) => n,
        None => Seq::<char>::empty(),
    }
}

/// The symbolic-name arguments: present exactly when a name was supplied.
pub open spec fn exe_name_args(name: Option<Seq<char>>) -> Seq<Seq<char>> {
    match name {
        Some(n) => seq!["--crate-name"@, n],
        None => Seq::<Seq<char>>::empty(),
    }
}

/// The full toolchain invocation of an executable plan, program first: the
/// toolchain, colorized diagnostics, the artifact-kind arguments, the name
/// arguments, the dialect, one linkage declaration per dependency in
/// attachment order, the library search path, and the entry point last.
pub open spec fn exe_command(p: ExePlanView) -> Seq<Seq<char>> {
    seq![p.toolchain, "--color"@, "always"@] + exe_kind_args(p.kind) + exe_name_args(p.name)
        + seq!["--edition"@, p.edition] + extern_args(p.dependencies) + seq![
        "-L"@,
        p.cache_dir,
        p.entrypoint,
    ]
}

/// How a finished invocation is classified: a zero exit is the bare success
/// signal (the executable's location is not tracked), a non-zero exit a build
/// failure.
pub open spec fn exe_outcome(toolchain_succeeded: bool) -> Result<(), ()> {
    if toolchain_succeeded {
        Ok(())
    } else {
        Err(())
    }
}

/// An immutable, incrementally configured description of how to produce the
/// final executable. Every configuration method returns a new value.
pub struct Builder {
    kind: BuildKind,
    name: Option<String>,
    entrypoint: String,
    edition: String,
    dependencies: Vec<Dependency>,
    toolchain: String,
    cache_dir: String,
}

impl View for Builder {
    type V = ExePlanView;

    closed spec fn view(&self) -> ExePlanView {
        ExePlanView {
            kind: self.kind,
            name: match self.name {
                Some(n) => Some(n@),
                None => None,
            },
            entrypoint: self.entrypoint@,
            edition: self.edition@,
            dependencies: self.dependencies.deep_view(),
            toolchain: self.toolchain@,
            cache_dir: self.cache_dir@,
        }
    }
}

impl Builder {
    /// A fresh executable plan: no name, the conventional entry point
    /// `src/main.rs`, the "2018" dialect baseline, and the conventional cache
    /// directory and toolchain.
    pub fn new() -> (r: Builder)
        ensures
            r@ == (ExePlanView {
                kind: BuildKind::Plain,
                name: None,
                entrypoint: "src/main.rs"@,
                edition: "2018"@,
                dependencies: Seq::<DepView>::empty(),
                toolchain: "rustc"@,
                cache_dir: ".sloop"@,
            }),
            r@.wf(),
    {
        let r = Builder {
            kind: BuildKind::Plain,
            name: None,
            entrypoint: String::from_str("src/main.rs"),
            edition: String::from_str("2018"),
            dependencies: Vec::new(),
            toolchain: String::from_str("rustc"),
            cache_dir: String::from_str(".sloop"),
        };
        proof {
            assert(r@.dependencies =~= Seq::<DepView>::empty());
        }
        r
    }

    /// Selects the executable kind.
    pub fn binary(self) -> (r: Builder)
        ensures
            r@ == (ExePlanView { kind: BuildKind::Binary, ..self@ }),
    {
        Builder { kind: BuildKind::Binary, ..self }
    }

    /// Selects the reserved library kind. A plan so configured has no
    /// invocation: the executor must refuse it.
    pub fn library(self) -> (r: Builder)
        ensures
            r@ == (ExePlanView { kind: BuildKind::Library, ..self@ }),
    {
        Builder { kind: BuildKind::Library, ..self }
    }

    /// Supplies an explicit symbolic name.
    pub fn name(self, name: &str) -> (r: Builder)
        requires
            is_ident(name@),
        ensures
            r@ == (ExePlanView { name: Some(name@), ..self@ }),
    {
        Builder { name: Some(String::from_str(name)), ..self }
    }

    /// Overrides the entry-point source path.
    pub fn entrypoint(self, entrypoint: &str) -> (r: Builder)
        ensures
            r@ == (ExePlanView { entrypoint: entrypoint@, ..self@ }),
    {
        Builder { entrypoint: String::from_str(entrypoint), ..self }
    }

    /// Attaches one artifact reference; the linkage declarations keep the
    /// attachment order.
    pub fn with_dependency(self, dependency: &Dependency) -> (r: Builder)
        ensures
            r@ == (ExePlanView { dependencies: self@.dependencies.push(dependency@), ..self@ }),
    {
        let mut dependencies = self.dependencies;
        dependencies.push(dependency.clone());
        let r = Builder { dependencies, ..self };
        proof {
            assert(r@.dependencies =~= self@.dependencies.push(dependency@));
        }
        r
    }

    /// Overrides the dialect version.
    pub fn edition(self, edition: &str) -> (r: Builder)
        ensures
            r@ == (ExePlanView { edition: edition@, ..self@ }),
    {
        Builder { edition: String::from_str(edition), ..self }
    }

    /// Overrides the toolchain program.
    pub fn toolchain(self, toolchain: &str) -> (r: Builder)
        ensures
            r@ == (ExePlanView { toolchain: toolchain@, ..self@ }),
    {
        Builder { toolchain: String::from_str(toolchain), ..self }
    }

    /// Overrides the cache directory used as the library search path.
    pub fn cache_dir(self, cache_dir: &str) -> (r: Builder)
        ensures
            r@ == (ExePlanView { cache_dir: cache_dir@, ..self@ }),
    {
        Builder { cache_dir: String::from_str(cache_dir), ..self }
    }

    /// Whether the reserved library kind was selected. A caller outside the
    /// library tests this before asking for the invocation, and aborts on a
    /// plan that selected it.
    pub fn is_library(&self) -> (r: bool)
        ensures
            r == (self@.kind is Library),
    {
        match self.kind {
            BuildKind::Library => true,
            _ => false,
        }
    }

    /// The supplied symbolic name, or empty when none was supplied; for the
    /// build notice.
    pub fn display_name(&self) -> (r: &str)
        ensures
            r@ == display_name_of(self@.name),
    {
        match &self.name {
            Some(n) => n.as_str(),
            None => {
                let empty = "";
                proof {
                    reveal_strlit("");
                }
                empty
            },
        }
    }

    /// The notice every executable build emits before anything else: the
    /// supplied name (or nothing), colored, then the entry-point path.
    pub fn building_notice(&self) -> (r: String)
        ensures
            r@ == "Building "@ + colored_text(155, 155, 255, display_name_of(self@.name)) + " "@
                + self@.entrypoint,
    {
        let colored_name = colored(155, 155, 255, self.display_name());
        String::from_str("Building ").concat(colored_name.as_str()).concat(" ").concat(
            self.entrypoint.as_str(),
        )
    }

    /// The entry-point source path; for the build notice.
    pub fn entry_path(&self) -> (r: &str)
        ensures
            r@ == self@.entrypoint,
    {
        self.entrypoint.as_str()
    }

    /// Assembles the full toolchain invocation for this plan, program first.
    /// The reserved library kind has no invocation and is excluded.
    pub fn command(&self) -> (cmd: Vec<String>)
        requires
            !(self@.kind is Library),
        ensures
            cmd.deep_view() == exe_command(self@),
    {
        let mut cmd: Vec<String> = Vec::new();
        cmd.push(self.toolchain.clone());
        cmd.push(String::from_str("--color"));
        cmd.push(String::from_str("always"));
        match self.kind {
            BuildKind::Binary => {
                cmd.push(String::from_str("--crate-type"));
                cmd.push(String::from_str("bin"));
            },
            _ => {},
        }
        match &self.name {
            Some(n) => {
                cmd.push(String::from_str("--crate-name"));
                cmd.push(n.clone());
            },
            None => {},
        }
        cmd.push(String::from_str("--edition"));
        cmd.push(self.edition.clone());
        proof {
            assert(cmd.deep_view() =~= seq![self@.toolchain, "--color"@, "always"@]
                + exe_kind_args(self@.kind) + exe_name_args(self@.name) + seq![
                "--edition"@,
                self@.edition,
            ]);
        }
        push_extern_args(&mut cmd, &self.dependencies);
        let ghost mid = cmd.deep_view();
        cmd.push(String::from_str("-L"));
        cmd.push(self.cache_dir.clone());
        cmd.push(self.entrypoint.clone());
        proof {
            assert(cmd.deep_view() =~= mid + seq!["-L"@, self@.cache_dir, self@.entrypoint]);
            assert(cmd.deep_view() =~= exe_command(self@));
        }
        cmd
    }

    /// Classifies the toolchain's exit after an invocation ran: a zero exit is
    /// the bare success signal, a non-zero exit a build failure and never a
    /// success. Diagnostic text lives only on the relayed streams.
    pub fn conclude(&self, toolchain_succeeded: bool) -> (r: Result<(), ()>)
        ensures
            r is Ok <==> toolchain_succeeded,
            r == exe_outcome(toolchain_succeeded),
    {
        if toolchain_succeeded {
            Ok(())
        } else {
            Err(())
        }
    }
}

} // verus!
