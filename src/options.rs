use vstd::prelude::*;
use vstd::string::*;

verus! {

/// Options for size optimizations. They affect release builds only, except the
/// alternative allocator, which affects every build.
pub struct SizeOpts {
    /// Whether to use `wee_alloc`, which reduces binary size at the cost of slightly
    /// slower allocations.
    pub wee_alloc: bool,
    /// Whether to use link-time optimizations.
    pub lto: bool,
    /// The optimization level of the release profile (`z` optimizes aggressively for size).
    pub opt_level: String,
    /// The value for `codegen-units`: higher values compile faster but give slower code.
    pub codegen_units: u16,
    /// Whether to build `fluent-bundle` at a lower optimization level, which keeps
    /// size-optimized builds of it from taking forever on Rust 2021.
    pub enable_fluent_bundle_patch: bool,
}

impl SizeOpts {
    /// Whether these options hold exactly the given values.
    pub open spec fn has(
        &self,
        wee_alloc: bool,
        lto: bool,
        opt_level: Seq<char>,
        codegen_units: u16,
        enable_fluent_bundle_patch: bool,
    ) -> bool {
        &&& self.wee_alloc == wee_alloc
        &&& self.lto == lto
        &&& self.opt_level@ == opt_level
        &&& self.codegen_units == codegen_units
        &&& self.enable_fluent_bundle_patch == enable_fluent_bundle_patch
    }

    /// The usual default, but without the `fluent-bundle` patch: the greater size
    /// reduction for apps that are not on Rust 2021.
    pub fn default_2018() -> (r: Self)
        ensures
            r.has(true, true, seq!['z'], 1, false),
    {
        let r = SizeOpts {
            wee_alloc: true,
            lto: true,
            opt_level: String::from_str("z"),
            codegen_units: 1,
            enable_fluent_bundle_patch: false,
        };
        proof {
            reveal_strlit("z");
            assert(r.opt_level@ =~= seq!['z']);
        }
        r
    }

    /// The usual default, but without link-time optimizations, which break compilation
    /// or serving on some hosting providers.
    pub fn default_no_lto() -> (r: Self)
        ensures
            r.has(true, false, seq!['z'], 1, true),
    {
        let r = SizeOpts {
            wee_alloc: true,
            lto: false,
            opt_level: String::from_str("z"),
            codegen_units: 1,
            enable_fluent_bundle_patch: true,
        };
        proof {
            reveal_strlit("z");
            assert(r.opt_level@ =~= seq!['z']);
        }
        r
    }

    /// Only the alternative allocator: the release profile keeps Cargo's usual levels.
    pub fn only_wee_alloc() -> (r: Self)
        ensures
            r.has(true, false, seq!['3'], 16, true),
    {
        let r = SizeOpts {
            wee_alloc: true,
            lto: false,
            opt_level: String::from_str("3"),
            codegen_units: 16,
            enable_fluent_bundle_patch: true,
        };
        proof {
            reveal_strlit("3");
            assert(r.opt_level@ =~= seq!['3']);
        }
        r
    }

    /// Every optimization but the alternative allocator.
    pub fn no_wee_alloc() -> (r: Self)
        ensures
            r.has(false, true, seq!['z'], 1, true),
    {
        let r = SizeOpts {
            wee_alloc: false,
            lto: true,
            opt_level: String::from_str("z"),
            codegen_units: 1,
            enable_fluent_bundle_patch: true,
        };
        proof {
            reveal_strlit("z");
            assert(r.opt_level@ =~= seq!['z']);
        }
        r
    }
}

impl Default for SizeOpts {
    /// Every optimization.
    fn default() -> (r: Self)
        ensures
            r.has(true, true, seq!['z'], 1, true),
    {
        let r = SizeOpts {
            wee_alloc: true,
            lto: true,
            opt_level: String::from_str("z"),
            codegen_units: 1,
            enable_fluent_bundle_patch: true,
        };
        proof {
            reveal_strlit("z");
            assert(r.opt_level@ =~= seq!['z']);
        }
        r
    }
}

} // verus!
