//! Artifact references: the immutable value a finished library build hands to
//! downstream plans, pairing a symbolic name with the on-disk artifact path,
//! and the linkage-declaration arguments such references contribute to a
//! toolchain invocation.

use vstd::prelude::*;
use vstd::string::StringExecFns;

use crate::names::is_ident;

verus! {

/// The mathematical model of an artifact reference.
#[verifier::ext_equal]
pub ghost struct DepView {
    pub crate_name: Seq<char>,
    pub rlib_path: Seq<char>,
}

impl DepView {
    /// A well-formed reference carries a non-empty, toolchain-legal symbolic
    /// name; the path is whatever the producing plan resolved.
    pub open spec fn wf(self) -> bool {
        is_ident(self.crate_name)
    }
}

/// A previously produced library artifact, identified by symbolic name and
/// on-disk path. Immutable once constructed; plans share it read-only.
#[derive(Debug)]
pub struct Dependency {
    pub(crate) crate_name: String,
    pub(crate) rlib_path: String,
}

impl View for Dependency {
    type V = DepView;

    closed spec fn view(&self) -> DepView {
        DepView { crate_name: self.crate_name@, rlib_path: self.rlib_path@ }
    }
}

impl DeepView for Dependency {
    type V = DepView;

    open spec fn deep_view(&self) -> DepView {
        self.view()
    }
}

impl Clone for Dependency {
    fn clone(&self) -> (r: Self)
        ensures
            r == *self,
    {
        Dependency { crate_name: self.crate_name.clone(), rlib_path: self.rlib_path.clone() }
    }
}

impl Dependency {
    /// Packs a symbolic name and an artifact path into a reference.
    pub(crate) fn from_parts(crate_name: String, rlib_path: String) -> (d: Dependency)
        ensures
            d@ == (DepView { crate_name: crate_name@, rlib_path: rlib_path@ }),
    {
        let d = Dependency { crate_name, rlib_path };
        proof {
            assert(d@ =~= (DepView { crate_name: d.crate_name@, rlib_path: d.rlib_path@ }));
        }
        d
    }

    /// The symbolic name the artifact was declared under.
    pub fn crate_name(&self) -> (r: &str)
        ensures
            r@ == self@.crate_name,
    {
        self.crate_name.as_str()
    }

    /// The filesystem path of the artifact.
    pub fn rlib_path(&self) -> (r: &str)
        ensures
            r@ == self@.rlib_path,
    {
        self.rlib_path.as_str()
    }
}

/// The value of one linkage declaration: `name=path`.
pub open spec fn link_pair(d: DepView) -> Seq<char> {
    d.crate_name + "="@ + d.rlib_path
}

/// The linkage-declaration arguments for a dependency list: for each reference,
/// in attachment order, the flag `--extern` followed by its `name=path` pair.
pub open spec fn extern_args(deps: Seq<DepView>) -> Seq<Seq<char>>
    decreases deps.len(),
{
    if deps.len() == 0 {
        Seq::<Seq<char>>::empty()
    } else {
        extern_args(deps.drop_last()) + seq!["--extern"@, link_pair(deps.last())]
    }
}

/// Appends the linkage-declaration arguments of `deps` to a command under
/// assembly.
pub(crate) fn push_extern_args(cmd: &mut Vec<String>, deps: &Vec<Dependency>)
    ensures
        final(cmd).deep_view() == old(cmd).deep_view() + extern_args(deps.deep_view()),
{
    let ghost all = deps.deep_view();
    proof {
        assert(extern_args(all.take(0)) =~= Seq::<Seq<char>>::empty());
        assert(cmd.deep_view() =~= cmd.deep_view() + extern_args(all.take(0)));
    }
    let mut i: usize = 0;
    while i < deps.len()
        invariant
            i <= deps.len(),
            all == deps.deep_view(),
            cmd.deep_view() == old(cmd).deep_view() + extern_args(all.take(i as int)),
        decreases deps.len() - i,
    {
        let ghost pre = cmd.deep_view();
        cmd.push(String::from_str("--extern"));
        let d = &deps[i];
        let pair = String::from_str(d.crate_name()).concat("=").concat(d.rlib_path());
        proof {
            assert(pair@ =~= link_pair(all[i as int]));
        }
        cmd.push(pair);
        proof {
            assert(cmd.deep_view() =~= pre.push("--extern"@).push(link_pair(all[i as int])));
            assert(all.take(i as int + 1).drop_last() =~= all.take(i as int));
            assert(all.take(i as int + 1).last() == all[i as int]);
            assert(extern_args(all.take(i as int + 1)) == extern_args(all.take(i as int))
                + seq!["--extern"@, link_pair(all[i as int])]);
            assert(cmd.deep_view() =~= old(cmd).deep_view() + extern_args(
                all.take(i as int + 1),
            ));
        }
        i = i + 1;
    }
    proof {
        assert(all.take(deps.len() as int) =~= all);
    }
}

} // verus!
