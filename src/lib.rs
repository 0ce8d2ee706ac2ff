//! Size optimizations for the build directory that Perseus generates: a release profile
//! tuned for small Wasm bundles, an alternative allocator, and the library target shape
//! that the engine needs, applied to the manifest and the entry point of that directory.
mod error;
mod laws;
mod manifest;
mod optimize;
mod options;
mod outside;

pub use error::{
    SizeOptsError, GET_MANIFEST_FAILED, READ_LIB_FAILED, WRITE_LIB_FAILED, WRITE_MANIFEST_FAILED,
};
pub use laws::{
    lemma_allocator_dependency_present, lemma_missing_profile_is_made,
    lemma_patch_replaces_overrides, lemma_profile_takes_options,
};
pub use manifest::{
    lto_view, opt_level_view, override_level,
    BuildManifest, DependencyDecl, LibTarget, Lto, OptLevel, PackageOverride, ReleaseProfile,
    OPT_LEVEL_KEY,
};
pub use optimize::{
    has_key, is_engine_crate_type, is_fluent_bundle_patch, is_wee_alloc_dependency,
    is_shallow_enough, nesting_depth_of, optimize_entry_point, optimize_manifest, optimized_document, optimized_from,
    optimized_release, sets_entry, with_wee_alloc,
    CDYLIB, FLUENT_BUNDLE, FLUENT_BUNDLE_OPT_LEVEL, RLIB, WEE_ALLOC, WEE_ALLOC_DEF,
    WEE_ALLOC_VERSION,
};
pub use options::SizeOpts;
pub use outside::{
    decl_version, distinct_keys, doc_dependency_table, doc_lib, doc_release, doc_rest,
    entries_map, keyed, manifest_parses, nesting_depth, parsed_document, product_is_default,
    product_rest, profile_is_blank, profile_override_values, profile_rest, renders_as,
    shallow_enough, Document, Lexing, MAX_NESTING_DEPTH,
};
