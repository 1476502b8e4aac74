//! The orchestration laws: what holds of every plan, stated over the plan
//! models and proved once and for all.

use vstd::prelude::*;

use crate::artifact::DepView;
use crate::artifact::extern_args;
use crate::artifact::link_pair;
use crate::executable::exe_outcome;
use crate::library::LibDecision;
use crate::library::LibPlanView;
use crate::library::artifact_path_of;
use crate::library::crate_type_args;
use crate::library::dep_of;
use crate::library::lib_command;
use crate::library::lib_common_args;
use crate::library::lib_extension;
use crate::library::lib_decision;
use crate::library::lib_outcome;

verus! {

/// An artifact that already exists before the first build short-circuits every
/// build of an equal plan: the decision is the same `UpToDate` reference both
/// times — the one the plan resolves — and no invocation is ever assembled.
pub proof fn lemma_existing_artifact_short_circuits(p1: LibPlanView, p2: LibPlanView)
    requires
        p1 == p2,
    ensures
        lib_decision(p1, true) == LibDecision::UpToDate(dep_of(p1)),
        lib_decision(p2, true) == lib_decision(p1, true),
        !(lib_decision(p1, true) is Invoke),
{
}

/// A successful build of a plan returns exactly the reference that a rebuild
/// of an equal plan resolves once the artifact is present: the rebuild is a
/// cache hit with an identical reference, and only an absent artifact leads
/// to an invocation.
pub proof fn lemma_rebuild_after_success_is_cache_hit(p: LibPlanView)
    ensures
        lib_outcome(p, true) == Ok::<DepView, ()>(dep_of(p)),
        lib_decision(p, true) == LibDecision::UpToDate(dep_of(p)),
        lib_decision(p, false) is Invoke,
{
}

/// A toolchain that exits non-zero yields a build failure and never an
/// artifact reference or a success signal, for the library plan and for the
/// executable plan alike.
pub proof fn lemma_failure_yields_no_artifact(p: LibPlanView)
    ensures
        lib_outcome(p, false) == Err::<DepView, ()>(()),
        exe_outcome(false) == Err::<(), ()>(()),
{
}

/// A macro-plugin plan and a plain plan that agree on everything else resolve
/// different artifact paths (the extensions differ), and their invocations
/// differ in exactly the artifact-kind arguments: the plugin variant carries
/// the plugin crate type and the plugin linkage pair, while the plain
/// variant's kind arguments carry neither the plugin crate type nor any
/// linkage flag — the rest of the two invocations is the identical sequence.
pub proof fn lemma_plugin_and_plain_diverge(p: LibPlanView)
    ensures
        crate_type_args(true).contains("proc-macro"@),
        crate_type_args(true).contains("--extern"@),
        crate_type_args(true).contains("proc_macro"@),
        !crate_type_args(false).contains("proc-macro"@),
        !crate_type_args(false).contains("--extern"@),
        !crate_type_args(false).contains("proc_macro"@),
        artifact_path_of((LibPlanView { proc_macro: true, ..p })) != artifact_path_of(
            (LibPlanView { proc_macro: false, ..p }),
        ),
        lib_command((LibPlanView { proc_macro: true, ..p })) == seq![
            p.toolchain,
            "--color"@,
            "always"@,
            "--crate-type"@,
            "proc-macro"@,
            "--extern"@,
            "proc_macro"@,
        ] + lib_common_args((LibPlanView { proc_macro: true, ..p })),
        lib_command((LibPlanView { proc_macro: false, ..p })) == seq![
            p.toolchain,
            "--color"@,
            "always"@,
            "--crate-type"@,
            "lib"@,
        ] + lib_common_args((LibPlanView { proc_macro: false, ..p })),
        lib_common_args((LibPlanView { proc_macro: true, ..p })) == lib_common_args(
            (LibPlanView { proc_macro: false, ..p }),
        ),
        lib_command((LibPlanView { proc_macro: true, ..p })).contains("proc-macro"@),
{
    let plugin = LibPlanView { proc_macro: true, ..p };
    let plain = LibPlanView { proc_macro: false, ..p };
    reveal_strlit(".so");
    reveal_strlit(".rlib");
    reveal_strlit("--crate-type");
    reveal_strlit("lib");
    reveal_strlit("proc-macro");
    reveal_strlit("--extern");
    reveal_strlit("proc_macro");
    assert(artifact_path_of(plugin).len() != artifact_path_of(plain).len());
    assert(crate_type_args(true)[1] == "proc-macro"@);
    assert(crate_type_args(true)[2] == "--extern"@);
    assert(crate_type_args(true)[3] == "proc_macro"@);
    assert("--crate-type"@.len() == 12);
    assert("lib"@.len() == 3);
    assert("proc-macro"@.len() == 10);
    assert("--extern"@.len() == 8);
    assert("proc_macro"@.len() == 10);
    assert forall|i: int| 0 <= i < crate_type_args(false).len() implies crate_type_args(
        false,
    )[i] != "proc-macro"@ && crate_type_args(false)[i] != "--extern"@ && crate_type_args(
        false,
    )[i] != "proc_macro"@ by {
        assert(crate_type_args(false)[0] == "--crate-type"@);
        assert(crate_type_args(false)[1] == "lib"@);
    }
    assert(lib_command(plugin) =~= seq![
        p.toolchain,
        "--color"@,
        "always"@,
        "--crate-type"@,
        "proc-macro"@,
        "--extern"@,
        "proc_macro"@,
    ] + lib_common_args(plugin));
    assert(lib_command(plain) =~= seq![
        p.toolchain,
        "--color"@,
        "always"@,
        "--crate-type"@,
        "lib"@,
    ] + lib_common_args(plain));
    assert(lib_common_args(plugin) =~= lib_common_args(plain));
    assert(lib_command(plugin)[4] == "proc-macro"@);
}

/// The symbolic name never diverges between its two uses: the value of the
/// declared crate-name argument and the name embedded in the artifact file
/// are the same field of the plan, whatever the plan holds.
pub proof fn lemma_name_never_diverges(p: LibPlanView)
    ensures
        lib_common_args(p)[1] == p.crate_name,
        artifact_path_of(p) == p.cache_dir + "/lib"@ + p.crate_name + lib_extension(
            p.proc_macro,
        ),
        dep_of(p).crate_name == p.crate_name,
        dep_of(p).rlib_path == artifact_path_of(p),
{
    assert(lib_common_args(p)[1] == p.crate_name);
}

/// The shape that N attached references dictate: a sequence of 2N arguments
/// that alternates the linkage flag with the `name=path` pair of reference
/// i at position 2i+1, in attachment order.
pub open spec fn linkage_interleaving(deps: Seq<DepView>) -> Seq<Seq<char>> {
    Seq::new(
        2 * deps.len(),
        |j: int|
            if j % 2 == 0 {
                "--extern"@
            } else {
                link_pair(deps[j / 2])
            },
    )
}

/// A plan with N attached references assembles exactly N linkage-declaration
/// flag-pairs, one per reference and in attachment order: the linkage
/// arguments are precisely the 2N-long interleaving that pairs each
/// reference's symbolic name with its artifact path. Both plan kinds splice
/// these arguments into their invocations unchanged.
pub proof fn lemma_linkage_declarations(deps: Seq<DepView>)
    ensures
        extern_args(deps).len() == 2 * deps.len(),
        extern_args(deps) == linkage_interleaving(deps),
    decreases deps.len(),
{
    if deps.len() > 0 {
        lemma_linkage_declarations(deps.drop_last());
        assert(deps.drop_last().len() == deps.len() - 1);
        assert forall|j: int| 0 <= j < 2 * deps.len() implies extern_args(deps)[j]
            == linkage_interleaving(deps)[j] by {
            let shorter = deps.drop_last();
            if j < 2 * deps.len() - 2 {
                assert(extern_args(deps)[j] == extern_args(shorter)[j]);
                assert(shorter[j / 2] == deps[j / 2]);
            } else if j == 2 * deps.len() - 2 {
                assert(extern_args(deps)[j] == "--extern"@);
            } else {
                assert(j == 2 * deps.len() - 1);
                assert(extern_args(deps)[j] == link_pair(deps.last()));
                assert(j / 2 == deps.len() - 1);
            }
        }
        assert(extern_args(deps) =~= linkage_interleaving(deps));
    } else {
        assert(extern_args(deps) =~= linkage_interleaving(deps));
    }
}

} // verus!
