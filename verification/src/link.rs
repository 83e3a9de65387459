//! Build-time link configuration: which native libraries the compiled
//! extension must be linked against so that the kernel library's symbols
//! resolve when the host runtime loads it.
//!
//! The decision is a pure function of a single signal, the identity of the
//! build host's operating system: the native kernel library is always linked
//! statically, and an OpenMP runtime is additionally linked dynamically if
//! and only if the host is Linux. Emitting the resulting directives to the
//! build tool is the unverified shell's job; the table itself is decided
//! here.

use vstd::prelude::*;

verus! {

/// The operating system the extension is being built on, the one signal the
/// link decision is keyed by.
#[derive(Clone, Copy, Debug, PartialEq, Eq, Structural)]
pub enum TargetOs {
    Linux,
    MacOs,
    Windows,
    Other,
}

/// How a native library is linked.
#[derive(Clone, Copy, Debug, PartialEq, Eq, Structural)]
pub enum LinkKind {
    Static,
    Dynamic,
}

/// The native libraries this extension can depend on.
#[derive(Clone, Copy, Debug, PartialEq, Eq, Structural)]
pub enum NativeLib {
    /// The prebuilt native kernel library holding the compute kernels.
    KernelsCpu,
    /// The OpenMP runtime the kernels use on Linux hosts.
    OpenMp,
}

/// One entry of the link table: link `lib` in the manner of `kind`.
#[derive(Clone, Copy, Debug, PartialEq, Eq, Structural)]
pub struct LinkDirective {
    pub lib: NativeLib,
    pub kind: LinkKind,
}

/// The full link table for a build host: the kernel library statically on
/// every operating system, followed by the OpenMP runtime dynamically on
/// Linux alone.
pub open spec fn link_plan(os: TargetOs) -> Seq<LinkDirective> {
    if os is Linux {
        seq![
            LinkDirective { lib: NativeLib::KernelsCpu, kind: LinkKind::Static },
            LinkDirective { lib: NativeLib::OpenMp, kind: LinkKind::Dynamic },
        ]
    } else {
        seq![LinkDirective { lib: NativeLib::KernelsCpu, kind: LinkKind::Static }]
    }
}

/// Assembles the link table for `os`, exactly as `link_plan` states it.
pub fn link_directives(os: TargetOs) -> (v: Vec<LinkDirective>)
    ensures
        v@ == link_plan(os),
{
    let mut v: Vec<LinkDirective> = Vec::new();
    v.push(LinkDirective { lib: NativeLib::KernelsCpu, kind: LinkKind::Static });
    if matches!(os, TargetOs::Linux) {
        v.push(LinkDirective { lib: NativeLib::OpenMp, kind: LinkKind::Dynamic });
    }
    proof {
        assert(v@ =~= link_plan(os));
    }
    v
}

/// The linker-visible name of each native library.
pub fn lib_name(lib: NativeLib) -> (name: &'static str)
    ensures
        lib is KernelsCpu ==> name@ == "kernels_cpu"@,
        lib is OpenMp ==> name@ == "gomp"@,
{
    match lib {
        NativeLib::KernelsCpu => "kernels_cpu",
        NativeLib::OpenMp => "gomp",
    }
}

/// The kernel library is statically linked on every operating system: it is
/// always the first entry of the link table.
pub proof fn lemma_kernel_always_linked(os: TargetOs)
    ensures
        link_plan(os).len() >= 1,
        link_plan(os)[0] == (LinkDirective { lib: NativeLib::KernelsCpu, kind: LinkKind::Static }),
{
}

/// The OpenMP runtime appears in the link table if and only if the build
/// host is Linux, and then as a dynamically linked library.
pub proof fn lemma_openmp_iff_linux(os: TargetOs)
    ensures
        (exists|i: int|
            0 <= i < link_plan(os).len() && link_plan(os)[i].lib is OpenMp) <==> os is Linux,
        os is Linux ==> link_plan(os)[1] == (LinkDirective {
            lib: NativeLib::OpenMp,
            kind: LinkKind::Dynamic,
        }),
{
    if os is Linux {
        assert(link_plan(os)[1].lib is OpenMp);
    }
}

} // verus!
