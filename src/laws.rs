//! What holds of every application of size options to a release profile.
use crate::manifest::{DependencyDecl, Lto, OptLevel, PackageOverride, ReleaseProfile};
use crate::optimize::{
    has_key, is_wee_alloc_dependency, optimized_release, sets_entry, FLUENT_BUNDLE,
    FLUENT_BUNDLE_OPT_LEVEL, WEE_ALLOC, WEE_ALLOC_VERSION,
};
use crate::options::SizeOpts;
use vstd::prelude::*;

verus! {

/// Whatever options are applied (each named preset among them), the release profile ends
/// with exactly their optimization level, LTO flag and codegen units, whatever it held
/// before.
pub proof fn lemma_profile_takes_options(
    opts: SizeOpts,
    before: Option<ReleaseProfile>,
    after: ReleaseProfile,
    wee_alloc: bool,
    lto: bool,
    opt_level: Seq<char>,
    codegen_units: u16,
    patch: bool,
)
    requires
        opts.has(wee_alloc, lto, opt_level, codegen_units, patch),
        optimized_release(opts, before, after),
    ensures
        after.opt_level matches Some(OptLevel::Level(l)) && l@ == opt_level,
        after.lto == Some(if lto { Lto::Fat } else { Lto::ThinLocal }),
        after.codegen_units == Some(codegen_units),
{
}

/// With the patch on, the override table holds one entry, `fluent-bundle` at level 2,
/// whatever it held before.
pub proof fn lemma_patch_replaces_overrides(
    opts: SizeOpts,
    before: Option<ReleaseProfile>,
    after: ReleaseProfile,
)
    requires
        opts.enable_fluent_bundle_patch,
        optimized_release(opts, before, after),
    ensures
        after.package@.len() == 1,
        after.package@[0].0@ == FLUENT_BUNDLE@,
        after.package@[0].1 == PackageOverride::OptLevel(FLUENT_BUNDLE_OPT_LEVEL),
        FLUENT_BUNDLE_OPT_LEVEL == 2,
{
}

/// A manifest without a release profile gets one that holds only what the options set:
/// the three settings, and the patch's override table or none.
pub proof fn lemma_missing_profile_is_made(opts: SizeOpts, after: ReleaseProfile)
    requires
        optimized_release(opts, None, after),
    ensures
        after.other is None,
        after.opt_level is Some,
        after.lto is Some,
        after.codegen_units == Some(opts.codegen_units),
        opts.enable_fluent_bundle_patch ==> after.package@.len() == 1,
        !opts.enable_fluent_bundle_patch ==> after.package@.len() == 0,
{
}

/// Where the allocator was set in a dependency table, the table has an entry for
/// `wee_alloc` at the fixed version, and every entry under another name is still there.
pub proof fn lemma_allocator_dependency_present(
    before: Seq<(String, DependencyDecl)>,
    after: Seq<(String, DependencyDecl)>,
)
    requires
        sets_entry(before, after, WEE_ALLOC@, |d: DependencyDecl| is_wee_alloc_dependency(d)),
    ensures
        exists|i: int|
            0 <= i < after.len() && after[i].0@ == WEE_ALLOC@ && (after[i].1 matches DependencyDecl::Simple(v)
                && v@ == WEE_ALLOC_VERSION@),
        forall|i: int|
            0 <= i < before.len() && before[i].0@ != WEE_ALLOC@ ==> after[i] == before[i],
{
    if has_key(before, WEE_ALLOC@) {
        let i = choose|i: int| 0 <= i < before.len() && before[i].0@ == WEE_ALLOC@;
        assert(after[i].0 == before[i].0);
    } else {
        let i = after.len() - 1;
        assert(after[i] == after.last());
        assert forall|j: int| 0 <= j < before.len() implies after[j] == before[j] by {
            assert(after.subrange(0, before.len() as int)[j] == after[j]);
        }
    }
}

} // verus!
