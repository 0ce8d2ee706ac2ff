//! The build manifest as the optimizer sees it: the release profile, the dependency table
//! and the library target as plain values, and the rest of the document carried along.
use crate::outside::{
    blank_profile, decl_version, dependency_version, distinct_keys, doc_dependencies,
    doc_lib_crate_types, doc_release_codegen_units, doc_release_lto, doc_release_opt_level,
    doc_release_overrides, doc_rest, doc_release, doc_lib, doc_dependency_table, profile_rest,
    product_rest, profile_override_values, profile_is_blank, entries_map, integer_table, join_document, join_product, join_profile, keyed,
    lto_fat, lto_flag, lto_thin_local, profile_codegen_units, profile_lto, profile_opt_level,
    profile_overrides, simple_dependency, split_document, split_product, split_profile,
    string_value, value_opt_level, value_text, Document,
};
use vstd::prelude::*;
use vstd::string::*;

verus! {

/// The optimization level of a profile.
pub enum OptLevel {
    /// A level given as a string, such as `"z"` or `"3"`.
    Level(String),
    /// Whatever the document held, carried through untouched.
    Kept(toml::Value),
}

/// The link-time optimization setting of a profile.
pub enum Lto {
    /// Full link-time optimization, written `lto = true`.
    Fat,
    /// Link-time optimization within the crate only, written `lto = false`.
    ThinLocal,
    /// Whatever the document held, carried through untouched.
    Kept(cargo_toml::LtoSetting),
}

/// The settings of one entry of a profile's per-package override table.
pub enum PackageOverride {
    /// A table that sets the package's optimization level and nothing else.
    OptLevel(i64),
    /// Whatever the document held, carried through untouched.
    Kept(toml::Value),
}

/// A dependency of the manifest.
pub enum DependencyDecl {
    /// A dependency given by its version alone.
    Simple(String),
    /// Whatever the document held, carried through untouched.
    Kept(cargo_toml::Dependency),
}

/// The release profile.
pub struct ReleaseProfile {
    pub opt_level: Option<OptLevel>,
    pub lto: Option<Lto>,
    pub codegen_units: Option<u16>,
    /// The per-package override table, keyed by package name.
    pub package: Vec<(String, PackageOverride)>,
    /// The profile's other settings as the document held them, or `None` where the
    /// document had no release profile.
    pub other: Option<cargo_toml::Profile>,
}

/// The library target.
pub struct LibTarget {
    /// The kinds of output that the target is built as.
    pub crate_type: Vec<String>,
    /// The target's other settings.
    pub other: cargo_toml::Product,
}

/// A build manifest.
pub struct BuildManifest {
    pub release: Option<ReleaseProfile>,
    /// The top-level dependency table, keyed by dependency name.
    pub dependencies: Vec<(String, DependencyDecl)>,
    pub lib: Option<LibTarget>,
    /// The rest of the document.
    pub other: Document,
}

/// The optimization level that a profile of the model writes, where it is a string.
pub open spec fn opt_level_view(o: Option<OptLevel>) -> Option<Seq<char>> {
    match o {
        Some(OptLevel::Level(s)) => Some(s@),
        Some(OptLevel::Kept(v)) => value_text(v),
        None => None,
    }
}

/// The LTO setting that a profile of the model writes, as `lto_flag` reads it.
pub open spec fn lto_view(l: Option<Lto>) -> Option<bool> {
    match l {
        Some(Lto::Fat) => Some(true),
        Some(Lto::ThinLocal) => Some(false),
        Some(Lto::Kept(l)) => lto_flag(l),
        None => None,
    }
}

/// The level that an override of the model sets, as `value_opt_level` reads it.
pub open spec fn override_level(o: PackageOverride) -> Option<i64> {
    match o {
        PackageOverride::OptLevel(n) => Some(n),
        PackageOverride::Kept(v) => value_opt_level(v),
    }
}

/// Entries that agree position by position, keys and values as `f` and `g` read them,
/// make the same map.
pub proof fn lemma_keyed_pointwise<V, W, X>(
    a: Seq<(String, V)>,
    f: spec_fn(V) -> X,
    b: Seq<(String, W)>,
    g: spec_fn(W) -> X,
)
    requires
        a.len() == b.len(),
        forall|i: int| 0 <= i < a.len() ==> a[i].0@ == b[i].0@ && f(a[i].1) == g(b[i].1),
    ensures
        keyed(a, f) == keyed(b, g),
    decreases a.len(),
{
    if a.len() > 0 {
        let (da, db) = (a.drop_last(), b.drop_last());
        assert forall|i: int| 0 <= i < da.len() implies da[i].0@ == db[i].0@ && f(da[i].1) == g(
            db[i].1,
        ) by {
            assert(da[i] == a[i] && db[i] == b[i]);
        }
        lemma_keyed_pointwise(da, f, db, g);
    }
}

/// Entries that agree position by position in keys, and whose values stand in `rel`, make
/// maps with the same keys whose values stand in `rel`.
pub proof fn lemma_keyed_related<V, W>(a: Seq<(String, V)>, b: Seq<(String, W)>, rel: spec_fn(V, W) -> bool)
    requires
        a.len() == b.len(),
        forall|i: int| 0 <= i < a.len() ==> a[i].0@ == b[i].0@ && rel(a[i].1, b[i].1),
    ensures
        entries_map(a).dom() == entries_map(b).dom(),
        forall|k: Seq<char>| #[trigger] entries_map(a).contains_key(k) ==> rel(
            entries_map(a)[k],
            entries_map(b)[k],
        ),
    decreases a.len(),
{
    if a.len() > 0 {
        let (da, db) = (a.drop_last(), b.drop_last());
        assert forall|i: int| 0 <= i < da.len() implies da[i].0@ == db[i].0@ && rel(da[i].1, db[i].1) by {
            assert(da[i] == a[i] && db[i] == b[i]);
        }
        lemma_keyed_related(da, db, rel);
        assert(entries_map(a).dom() =~= entries_map(b).dom());
    } else {
        assert(entries_map(a).dom() =~= entries_map(b).dom());
    }
}

/// A dependency of the document that stands for one of the model: the same, where the
/// model keeps it as it was.
pub open spec fn written_as(x: cargo_toml::Dependency, d: DependencyDecl) -> bool {
    d matches DependencyDecl::Kept(k) ==> x == k
}

/// An override of the document that stands for one of the model: the same, where the
/// model keeps it as it was.
pub open spec fn override_written_as(v: toml::Value, o: PackageOverride) -> bool {
    o matches PackageOverride::Kept(k) ==> v == k
}

impl ReleaseProfile {
    /// The override table has one entry per package.
    pub open spec fn wf(&self) -> bool {
        distinct_keys(self.package@)
    }

    /// A release profile that sets nothing.
    pub fn empty() -> (r: Self)
        ensures
            r.opt_level is None,
            r.lto is None,
            r.codegen_units is None,
            r.package@.len() == 0,
            r.other is None,
            r.wf(),
    {
        ReleaseProfile {
            opt_level: None,
            lto: None,
            codegen_units: None,
            package: Vec::new(),
            other: None,
        }
    }
}

impl BuildManifest {
    /// The dependency table has one entry per name, and so has the release profile's
    /// override table.
    pub open spec fn wf(&self) -> bool {
        &&& distinct_keys(self.dependencies@)
        &&& (self.release matches Some(p) ==> p.wf())
    }

    /// Takes a document apart into the parts that the optimizer works on.
    pub fn from_document(doc: Document) -> (r: Self)
        ensures
            r.wf(),
            keyed(r.dependencies@, |d: DependencyDecl| decl_version(d)) == doc_dependencies(doc),
            entries_map(r.dependencies@) == doc_dependency_table(doc).map_values(
                |d: cargo_toml::Dependency| DependencyDecl::Kept(d),
            ),
            doc_rest(r.other) == doc_rest(doc),
            doc_release(doc) is None ==> r.release is None,
            doc_release(doc) matches Some(p) ==> r.release matches Some(q) && q.other matches Some(
                o,
            ) && profile_rest(o) == profile_rest(p) && entries_map(q.package@)
                == profile_override_values(p).map_values(|v: toml::Value| PackageOverride::Kept(v)),
            doc_lib(doc) is None ==> r.lib is None,
            doc_lib(doc) matches Some(p) ==> r.lib matches Some(l) && product_rest(l.other)
                == product_rest(p),
    {
        let (other, release, dependencies, lib) = split_document(doc);
        let release = match release {
            Some(p) => Some(profile_from(p)),
            None => None,
        };
        let lib = match lib {
            Some(p) => {
                let (other, crate_type) = split_product(p);
                Some(LibTarget { crate_type, other })
            },
            None => None,
        };
        BuildManifest { release, dependencies, lib, other }
    }

    /// Puts the parts back together into a document.
    pub fn into_document(self) -> (r: Document)
        requires
            self.wf(),
        ensures
            self.release matches Some(p) ==> {
                &&& doc_release_opt_level(r) == opt_level_view(p.opt_level)
                &&& doc_release_lto(r) == lto_view(p.lto)
                &&& doc_release_codegen_units(r) == p.codegen_units
                &&& doc_release_overrides(r) == keyed(
                    p.package@,
                    |o: PackageOverride| override_level(o),
                )
            },
            doc_dependencies(r) == keyed(self.dependencies@, |d: DependencyDecl| decl_version(d)),
            self.lib matches Some(l) ==> doc_lib_crate_types(r) == l.crate_type@.map_values(
                |s: String| s@,
            ),
            doc_rest(r) == doc_rest(self.other),
            self.release matches Some(p) ==> doc_release(r) matches Some(q) && (p.other matches Some(
                o,
            ) ==> profile_rest(q) == profile_rest(o)) && (p.other is None ==> exists|
                b: cargo_toml::Profile,
            | #[trigger] profile_is_blank(b) && profile_rest(q) == profile_rest(b))
                && profile_override_values(q).dom()
                == entries_map(p.package@).dom() && (forall|k: Seq<char>|
                #[trigger] profile_override_values(q).contains_key(k) ==> override_written_as(
                    profile_override_values(q)[k],
                    entries_map(p.package@)[k],
                )),
            self.lib matches Some(l) ==> doc_lib(r) matches Some(q) && product_rest(q)
                == product_rest(l.other),
            doc_dependency_table(r).dom() == entries_map(self.dependencies@).dom(),
            forall|k: Seq<char>|
                #[trigger] doc_dependency_table(r).contains_key(k) ==> written_as(
                    doc_dependency_table(r)[k],
                    entries_map(self.dependencies@)[k],
                ),
    {
        let release = match self.release {
            Some(p) => Some(profile_into(p)),
            None => None,
        };
        let dependencies = dependencies_into(self.dependencies);
        let lib = match self.lib {
            Some(l) => Some(join_product(l.other, l.crate_type)),
            None => None,
        };
        join_document(self.other, release, dependencies, lib)
    }
}

fn profile_from(p: cargo_toml::Profile) -> (r: ReleaseProfile)
    ensures
        r.wf(),
        r.other matches Some(o) && profile_rest(o) == profile_rest(p),
        entries_map(r.package@) == profile_override_values(p).map_values(
            |v: toml::Value| PackageOverride::Kept(v),
        ),
{
    let (other, opt_level, lto, codegen_units, package) = split_profile(p);
    ReleaseProfile { opt_level, lto, codegen_units, package, other: Some(other) }
}

fn profile_into(p: ReleaseProfile) -> (r: cargo_toml::Profile)
    ensures
        p.other matches Some(o) ==> profile_rest(r) == profile_rest(o),
        p.other is None ==> exists|b: cargo_toml::Profile| #[trigger] profile_is_blank(b)
            && profile_rest(r) == profile_rest(b),
        profile_override_values(r).dom() == entries_map(p.package@).dom(),
        forall|k: Seq<char>|
            #[trigger] profile_override_values(r).contains_key(k) ==> override_written_as(
                profile_override_values(r)[k],
                entries_map(p.package@)[k],
            ),
        profile_opt_level(r) == opt_level_view(p.opt_level),
        profile_lto(r) == lto_view(p.lto),
        profile_codegen_units(r) == p.codegen_units,
        profile_overrides(r) == keyed(p.package@, |o: PackageOverride| override_level(o)),
{
    let base = match p.other {
        Some(o) => o,
        None => blank_profile(),
    };
    let opt_level = match p.opt_level {
        Some(OptLevel::Level(s)) => Some(string_value(s)),
        Some(OptLevel::Kept(v)) => Some(v),
        None => None,
    };
    let lto = match p.lto {
        Some(Lto::Fat) => Some(lto_fat()),
        Some(Lto::ThinLocal) => Some(lto_thin_local()),
        Some(Lto::Kept(l)) => Some(l),
        None => None,
    };
    let package = overrides_into(p.package);
    join_profile(base, opt_level, lto, p.codegen_units, package)
}

/// The key of a package override table that sets the optimization level.
pub const OPT_LEVEL_KEY: &'static str = "opt-level";

fn overrides_into(entries: Vec<(String, PackageOverride)>) -> (r: Vec<(String, toml::Value)>)
    ensures
        keyed(r@, |v: toml::Value| value_opt_level(v)) == keyed(
            entries@,
            |o: PackageOverride| override_level(o),
        ),
        entries_map(r@).dom() == entries_map(entries@).dom(),
        forall|k: Seq<char>|
            #[trigger] entries_map(r@).contains_key(k) ==> override_written_as(
                entries_map(r@)[k],
                entries_map(entries@)[k],
            ),
{
    let mut rest = entries;
    let mut out: Vec<(String, toml::Value)> = Vec::new();
    while rest.len() > 0
        invariant
            out@.len() + rest@.len() == entries@.len(),
            forall|i: int|
                0 <= i < out@.len() ==> out@[i].0 == entries@[i].0 && value_opt_level(out@[i].1)
                    == override_level(entries@[i].1) && override_written_as(out@[i].1, entries@[i].1),
            forall|i: int| 0 <= i < rest@.len() ==> rest@[i] == entries@[out@.len() + i],
        decreases rest.len(),
    {
        let (name, entry) = rest.remove(0);
        let value = match entry {
            PackageOverride::OptLevel(n) => {
                proof {
                    reveal_strlit("opt-level");
                }
                integer_table(String::from_str(OPT_LEVEL_KEY), n)
            },
            PackageOverride::Kept(v) => v,
        };
        out.push((name, value));
    }
    proof {
        lemma_keyed_pointwise(
            out@,
            |v: toml::Value| value_opt_level(v),
            entries@,
            |o: PackageOverride| override_level(o),
        );
        lemma_keyed_related(out@, entries@, |v: toml::Value, o: PackageOverride| override_written_as(v, o));
    }
    out
}

fn dependencies_into(entries: Vec<(String, DependencyDecl)>) -> (r: Vec<(String, cargo_toml::Dependency)>)
    ensures
        keyed(r@, |d: cargo_toml::Dependency| dependency_version(d)) == keyed(
            entries@,
            |d: DependencyDecl| decl_version(d),
        ),
        entries_map(r@).dom() == entries_map(entries@).dom(),
        forall|k: Seq<char>|
            #[trigger] entries_map(r@).contains_key(k) ==> written_as(
                entries_map(r@)[k],
                entries_map(entries@)[k],
            ),
{
    let mut rest = entries;
    let mut out: Vec<(String, cargo_toml::Dependency)> = Vec::new();
    while rest.len() > 0
        invariant
            out@.len() + rest@.len() == entries@.len(),
            forall|i: int|
                0 <= i < out@.len() ==> out@[i].0 == entries@[i].0 && dependency_version(out@[i].1)
                    == decl_version(entries@[i].1) && written_as(out@[i].1, entries@[i].1),
            forall|i: int| 0 <= i < rest@.len() ==> rest@[i] == entries@[out@.len() + i],
        decreases rest.len(),
    {
        let (name, entry) = rest.remove(0);
        let dependency = match entry {
            DependencyDecl::Simple(version) => simple_dependency(version),
            DependencyDecl::Kept(d) => d,
        };
        out.push((name, dependency));
    }
    proof {
        lemma_keyed_pointwise(
            out@,
            |d: cargo_toml::Dependency| dependency_version(d),
            entries@,
            |d: DependencyDecl| decl_version(d),
        );
        lemma_keyed_related(out@, entries@, |x: cargo_toml::Dependency, d: DependencyDecl| written_as(x, d));
    }
    out
}

} // verus!
