//! A minimal incremental build orchestrator.
//!
//! Library build plans and executable build plans are immutable builder values:
//! every configuration call returns a new plan. A plan resolves the path of the
//! artifact it would produce, decides from a cache lookup whether the toolchain
//! must run at all, assembles the exact toolchain invocation, and classifies the
//! toolchain's exit into success or failure. All of that is verified here; the
//! process, filesystem and terminal edges live outside the library and hand it
//! plain values (an existence bit, an exit bit) in exchange for decisions.

pub mod artifact;
pub mod executable;
pub mod laws;
pub mod library;
pub mod names;
pub mod strnum;
pub mod term;

pub use artifact::Dependency;
pub use executable::BuildKind;
pub use executable::Builder;
pub use library::BuildAction;
pub use library::DependencyBuilder;
pub use library::relayed_streams;
pub use names::crate_name_ok;
pub use names::derive_crate_name;
pub use names::ident_ok;
pub use strnum::fmt_i32;
pub use strnum::fmt_u64;
pub use term::colored;
