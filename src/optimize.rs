//! Applying size optimizations to the manifest and the entry point of the build directory.
use crate::error::SizeOptsError;
use crate::manifest::{
    override_level, override_written_as, written_as, BuildManifest, DependencyDecl, LibTarget, Lto, OptLevel, PackageOverride, ReleaseProfile,
};
use crate::options::SizeOpts;
use crate::outside::{
    decl_version, default_product, distinct_keys, doc_dependencies, doc_lib_crate_types,
    doc_release_codegen_units, doc_release_lto, doc_release_opt_level, doc_release_overrides,
    byte_at, closing_len, keyed, manifest_parses, nesting_depth, nesting_peak, parse_document,
    render_document, renders_as, shallow_enough, entries_map, parsed_document, doc_rest,
    doc_release, doc_lib, doc_dependency_table, profile_rest, product_rest, profile_override_values, profile_is_blank, product_is_default, text_dependencies, too_deep_error, Document, Lexing,
    APOSTROPHE, BACKSLASH, DOT, HASH, MAX_NESTING_DEPTH, NEWLINE, QUOTE,
};
use vstd::prelude::*;
use vstd::string::*;

verus! {

/// The package that the release profile builds at a lower level when the patch is on.
pub const FLUENT_BUNDLE: &'static str = "fluent-bundle";

/// The optimization level that the patch gives that package.
pub const FLUENT_BUNDLE_OPT_LEVEL: i64 = 2;

/// The alternative allocator's package.
pub const WEE_ALLOC: &'static str = "wee_alloc";

/// The version of the alternative allocator that the manifest asks for.
pub const WEE_ALLOC_VERSION: &'static str = "0.4";

/// What the entry point is prefixed with to make the alternative allocator the global one.
pub const WEE_ALLOC_DEF: &'static str = "#[global_allocator]\nstatic ALLOC: wee_alloc::WeeAlloc = wee_alloc::WeeAlloc::INIT;";

/// The dynamically linkable kind of output that the library target is always built as.
/// Both kinds are set on every run, whatever the target declared: they are lost from the
/// engine's manifest otherwise, and why has not been found yet.
pub const CDYLIB: &'static str = "cdylib";

/// The statically linkable kind of output that the library target is always built as.
pub const RLIB: &'static str = "rlib";

/// Whether some entry of `s` has the key `key`.
pub open spec fn has_key<V>(s: Seq<(String, V)>, key: Seq<char>) -> bool {
    exists|i: int| 0 <= i < s.len() && s[i].0@ == key
}

/// `after` is `before` with the value under `key` replaced by one that `is_value` accepts,
/// or, where `before` has no such key, with such an entry appended.
pub open spec fn sets_entry<V>(
    before: Seq<(String, V)>,
    after: Seq<(String, V)>,
    key: Seq<char>,
    is_value: spec_fn(V) -> bool,
) -> bool {
    if has_key(before, key) {
        &&& after.len() == before.len()
        &&& forall|i: int|
            0 <= i < before.len() ==> if before[i].0@ == key {
                after[i].0 == before[i].0 && is_value(after[i].1)
            } else {
                after[i] == before[i]
            }
    } else {
        &&& after.len() == before.len() + 1
        &&& after.subrange(0, before.len() as int) == before
        &&& after.last().0@ == key
        &&& is_value(after.last().1)
    }
}

/// An override table with one entry, which builds `fluent-bundle` at level 2.
pub open spec fn is_fluent_bundle_patch(package: Seq<(String, PackageOverride)>) -> bool {
    &&& package.len() == 1
    &&& package[0].0@ == FLUENT_BUNDLE@
    &&& package[0].1 == PackageOverride::OptLevel(FLUENT_BUNDLE_OPT_LEVEL)
}

/// A dependency on the alternative allocator at its fixed version.
pub open spec fn is_wee_alloc_dependency(d: DependencyDecl) -> bool {
    d matches DependencyDecl::Simple(v) && v@ == WEE_ALLOC_VERSION@
}

/// The release profile that applying `opts` makes of `before`.
pub open spec fn optimized_release(
    opts: SizeOpts,
    before: Option<ReleaseProfile>,
    after: ReleaseProfile,
) -> bool {
    &&& after.opt_level matches Some(OptLevel::Level(l)) && l@ == opts.opt_level@
    &&& after.lto == Some(if opts.lto { Lto::Fat } else { Lto::ThinLocal })
    &&& after.codegen_units == Some(opts.codegen_units)
    &&& if opts.enable_fluent_bundle_patch {
        is_fluent_bundle_patch(after.package@)
    } else {
        after.package@ == (match before {
            Some(p) => p.package@,
            None => Seq::empty(),
        })
    }
    &&& after.other == (match before {
        Some(p) => p.other,
        None => None,
    })
}

/// The library target's output kinds: `cdylib` and `rlib`, in that order.
pub open spec fn is_engine_crate_type(crate_type: Seq<String>) -> bool {
    &&& crate_type.len() == 2
    &&& crate_type[0]@ == CDYLIB@
    &&& crate_type[1]@ == RLIB@
}

/// Appending an entry inserts it into the map.
proof fn lemma_keyed_push<V, W>(s: Seq<(String, V)>, e: (String, V), f: spec_fn(V) -> W)
    ensures
        keyed(s.push(e), f) == keyed(s, f).insert(e.0@, f(e.1)),
{
    assert(s.push(e).drop_last() =~= s);
}

/// Replacing the value of an entry whose key no other entry has inserts the new value.
proof fn lemma_keyed_update<V, W>(s: Seq<(String, V)>, i: int, v: V, f: spec_fn(V) -> W)
    requires
        distinct_keys(s),
        0 <= i < s.len(),
    ensures
        keyed(s.update(i, (s[i].0, v)), f) == keyed(s, f).insert(s[i].0@, f(v)),
    decreases s.len(),
{
    let t = s.update(i, (s[i].0, v));
    if i == s.len() - 1 {
        assert(t.drop_last() =~= s.drop_last());
        assert(keyed(t, f) =~= keyed(s, f).insert(s[i].0@, f(v)));
    } else {
        let d = s.drop_last();
        assert(distinct_keys(d));
        assert(d[i] == s[i]);
        lemma_keyed_update(d, i, v, f);
        assert(t.drop_last() =~= d.update(i, (d[i].0, v)));
        assert(s.last().0@ != s[i].0@);
        assert(keyed(t, f) =~= keyed(s, f).insert(s[i].0@, f(v)));
    }
}

/// Sets the dependency under `key`, keeping the position of an existing entry.
fn set_entry(entries: &mut Vec<(String, DependencyDecl)>, key: String, value: DependencyDecl)
    requires
        distinct_keys(old(entries)@),
    ensures
        distinct_keys(final(entries)@),
        sets_entry(old(entries)@, final(entries)@, key@, |v: DependencyDecl| v == value),
        keyed(final(entries)@, |d: DependencyDecl| decl_version(d)) == keyed(
            old(entries)@,
            |d: DependencyDecl| decl_version(d),
        ).insert(key@, decl_version(value)),
        entries_map(final(entries)@) == entries_map(old(entries)@).insert(key@, value),
{
    let n = entries.len();
    let mut i: usize = 0;
    while i < n
        invariant
            n == entries@.len(),
            i <= n,
            entries@ == old(entries)@,
            distinct_keys(old(entries)@),
            forall|j: int| 0 <= j < i ==> entries@[j].0@ != key@,
        decreases n - i,
    {
        if entries[i].0 == key {
            let name = entries[i].0.clone();
            entries.set(i, (name, value));
            proof {
                let before = old(entries)@;
                lemma_keyed_update(before, i as int, value, |d: DependencyDecl| decl_version(d));
                lemma_keyed_update(before, i as int, value, |d: DependencyDecl| d);
                assert(entries@ =~= before.update(i as int, (before[i as int].0, value)));
                assert forall|j: int| 0 <= j < n && j != i implies before[j].0@ != key@ by {
                    if j < i {
                    } else {
                        assert(before[i as int].0@ != before[j].0@);
                    }
                }
                assert forall|a: int, b: int| 0 <= a < b < n implies entries@[a].0@
                    != entries@[b].0@ by {
                    assert(before[a].0@ != before[b].0@);
                }
            }
            return;
        }
        i = i + 1;
    }
    entries.push((key, value));
    assert(entries@.subrange(0, n as int) =~= old(entries)@);
    proof {
        lemma_keyed_push(old(entries)@, (key, value), |d: DependencyDecl| decl_version(d));
        lemma_keyed_push(old(entries)@, (key, value), |d: DependencyDecl| d);
    }
}

impl BuildManifest {
    /// Applies `opts`: the release profile gets the optimization level, the LTO setting
    /// and the codegen units of `opts` (a missing profile is made from nothing), and with
    /// the patch on, an override table that holds only the `fluent-bundle` entry (whatever
    /// table was there is replaced, not merged). With the allocator on, the dependency
    /// table gets `wee_alloc` at its fixed version; otherwise it is left as it was. The
    /// library target is always built as `cdylib` and `rlib`, whatever it declared. The
    /// rest of the document is left as it was.
    pub fn apply(self, opts: &SizeOpts) -> (r: Self)
        requires
            self.wf(),
        ensures
            r.wf(),
            r.release matches Some(p) && optimized_release(*opts, self.release, p),
            opts.wee_alloc ==> sets_entry(
                self.dependencies@,
                r.dependencies@,
                WEE_ALLOC@,
                |d: DependencyDecl| is_wee_alloc_dependency(d),
            ),
            opts.wee_alloc ==> keyed(r.dependencies@, |d: DependencyDecl| decl_version(d))
                == keyed(self.dependencies@, |d: DependencyDecl| decl_version(d)).insert(
                WEE_ALLOC@,
                Some(WEE_ALLOC_VERSION@),
            ),
            opts.wee_alloc ==> entries_map(r.dependencies@).remove(WEE_ALLOC@) == entries_map(
                self.dependencies@,
            ).remove(WEE_ALLOC@),
            !opts.wee_alloc ==> r.dependencies == self.dependencies,
            r.lib matches Some(l) && is_engine_crate_type(l.crate_type@),
            self.lib matches Some(l) ==> r.lib->0.other == l.other,
            self.lib is None ==> product_is_default(r.lib->0.other),
            r.other == self.other,
    {
        let BuildManifest { release, dependencies, lib, other } = self;
        let ghost before = release;
        let mut profile = match release {
            Some(p) => p,
            None => ReleaseProfile::empty(),
        };
        assert(profile.package@ == (match before {
            Some(p) => p.package@,
            None => Seq::<(String, PackageOverride)>::empty(),
        }));
        profile.opt_level = Some(OptLevel::Level(opts.opt_level.clone()));
        profile.lto = Some(if opts.lto { Lto::Fat } else { Lto::ThinLocal });
        profile.codegen_units = Some(opts.codegen_units);
        if opts.enable_fluent_bundle_patch {
            let mut patch: Vec<(String, PackageOverride)> = Vec::new();
            let entry = PackageOverride::OptLevel(FLUENT_BUNDLE_OPT_LEVEL);
            patch.push((String::from_str(FLUENT_BUNDLE), entry));
            profile.package = patch;
        }
        let mut dependencies = dependencies;
        if opts.wee_alloc {
            let ghost deps_before = dependencies@;
            let dep = DependencyDecl::Simple(String::from_str(WEE_ALLOC_VERSION));
            let ghost map_before = entries_map(dependencies@);
            set_entry(&mut dependencies, String::from_str(WEE_ALLOC), dep);
            assert(entries_map(dependencies@).remove(WEE_ALLOC@) =~= map_before.remove(WEE_ALLOC@));
            assert(sets_entry(
                deps_before,
                dependencies@,
                WEE_ALLOC@,
                |d: DependencyDecl| is_wee_alloc_dependency(d),
            ));
        }
        let lib_other = match lib {
            Some(l) => l.other,
            None => default_product(),
        };
        let crate_type = vec![String::from_str(CDYLIB), String::from_str(RLIB)];
        BuildManifest {
            release: Some(profile),
            dependencies,
            lib: Some(LibTarget { crate_type, other: lib_other }),
            other,
        }
    }
}

impl BuildManifest {
    /// Reads a manifest document. It fails to load exactly where `cargo_toml` cannot
    /// parse the text.
    /// A text that nests deeper than `MAX_NESTING_DEPTH` is refused unparsed, since the
    /// parser recurses once per level.
    pub fn parse(text: &str) -> (r: Result<Self, SizeOptsError>)
        ensures
            (shallow_enough(text) && manifest_parses(text@)) <==> r is Ok,
            r matches Ok(m) ==> m.wf() && keyed(
                m.dependencies@,
                |d: DependencyDecl| decl_version(d),
            ) == text_dependencies(text@),
            r is Err ==> r matches Err(SizeOptsError::GetManifestFailed { .. }),
    {
        if !is_shallow_enough(text) {
            return Err(SizeOptsError::GetManifestFailed { source: too_deep_error() });
        }
        match parse_document(text) {
            Ok(doc) => Ok(BuildManifest::from_document(doc)),
            Err(e) => Err(SizeOptsError::GetManifestFailed { source: e }),
        }
    }

}

/// The byte `k` places after `i`, or 0 past the end.
fn byte_after(b: &[u8], i: usize, k: usize) -> (r: u8)
    requires
        i <= b@.len(),
    ensures
        r == byte_at(b@, i + k),
{
    if k < b.len() - i {
        b[i + k]
    } else {
        0
    }
}

/// `i + k`, or the end where that lies past it: the scan stops there either way.
fn advance(n: usize, i: usize, k: usize) -> (r: usize)
    requires
        i <= n,
    ensures
        r == if i + k < n { i + k } else { n as int },
{
    if k < n - i {
        i + k
    } else {
        n
    }
}

/// The scan from any position at or past the end has found all it will.
proof fn lemma_scan_done(b: Seq<u8>, i: int, st: Lexing, depth: nat, dots: nat, peak: nat)
    requires
        i >= b.len(),
    ensures
        nesting_peak(b, i, st, depth, dots, peak) == peak,
{
}

/// The deepest nesting that the parser of `toml` reaches on the text: arrays and inline
/// tables inside one another, plus the segments of a dotted key or table header.
pub fn nesting_depth_of(text: &str) -> (r: usize)
    ensures
        r == nesting_depth(text),
{
    let b = text.as_bytes();
    let n = b.len();
    let mut i: usize = 0;
    let mut st = Lexing::Plain;
    let mut depth: usize = 0;
    let mut dots: usize = 0;
    let mut peak: usize = 0;
    while i < n
        invariant
            b@ == text.spec_bytes(),
            n == b@.len(),
            i <= n,
            depth + dots <= i,
            peak <= i,
            nesting_peak(b@, i as int, st, depth as nat, dots as nat, peak as nat)
                == nesting_depth(text),
        decreases n - i,
    {
        let ghost (i0, st0, d0, e0, p0) = (i as int, st, depth as nat, dots as nat, peak as nat);
        let c = b[i];
        let mut step: usize = 1;
        match st {
            Lexing::Plain => {
                if c == QUOTE {
                    if byte_after(b, i, 1) == QUOTE && byte_after(b, i, 2) == QUOTE {
                        step = 3;
                        st = Lexing::MultiBasic;
                    } else if byte_after(b, i, 1) == QUOTE {
                        step = 2;
                    } else {
                        st = Lexing::Basic;
                    }
                } else if c == APOSTROPHE {
                    if byte_after(b, i, 1) == APOSTROPHE && byte_after(b, i, 2) == APOSTROPHE {
                        step = 3;
                        st = Lexing::MultiLiteral;
                    } else if byte_after(b, i, 1) == APOSTROPHE {
                        step = 2;
                    } else {
                        st = Lexing::Literal;
                    }
                } else if c == HASH {
                    st = Lexing::Comment;
                } else if c == 91 || c == 123 || c == DOT {
                    if c == DOT {
                        dots = dots + 1;
                    } else {
                        depth = depth + 1;
                    }
                    if depth + dots > peak {
                        peak = depth + dots;
                    }
                } else if c == 93 || c == 125 {
                    if depth > 0 {
                        depth = depth - 1;
                    }
                } else if c == NEWLINE {
                    dots = 0;
                }
            },
            Lexing::Basic => {
                if c == BACKSLASH {
                    step = 2;
                } else if c == QUOTE {
                    st = Lexing::Plain;
                } else if c == NEWLINE {
                    st = Lexing::Plain;
                    dots = 0;
                }
            },
            Lexing::Literal => {
                if c == APOSTROPHE {
                    st = Lexing::Plain;
                } else if c == NEWLINE {
                    st = Lexing::Plain;
                    dots = 0;
                }
            },
            Lexing::MultiBasic => {
                if c == BACKSLASH {
                    step = 2;
                } else if byte_after(b, i, 1) == QUOTE && byte_after(b, i, 2) == QUOTE && c
                    == QUOTE {
                    step = closing_length(b, i, QUOTE);
                    st = Lexing::Plain;
                }
            },
            Lexing::MultiLiteral => {
                if byte_after(b, i, 1) == APOSTROPHE && byte_after(b, i, 2) == APOSTROPHE && c
                    == APOSTROPHE {
                    step = closing_length(b, i, APOSTROPHE);
                    st = Lexing::Plain;
                }
            },
            Lexing::Comment => {
                if c == NEWLINE {
                    st = Lexing::Plain;
                    dots = 0;
                }
            },
        }
        let next = advance(n, i, step);
        proof {
            assert(nesting_peak(b@, i0, st0, d0, e0, p0) == nesting_peak(
                b@,
                i0 + step,
                st,
                depth as nat,
                dots as nat,
                peak as nat,
            ));
            if i0 + step >= n {
                lemma_scan_done(b@, i0 + step, st, depth as nat, dots as nat, peak as nat);
                lemma_scan_done(b@, n as int, st, depth as nat, dots as nat, peak as nat);
            }
        }
        i = next;
    }
    proof {
        lemma_scan_done(b@, i as int, st, depth as nat, dots as nat, peak as nat);
    }
    peak
}

/// The length of a closing triple delimiter at `i` and the further delimiters that the
/// tokenizer takes into the string.
fn closing_length(b: &[u8], i: usize, q: u8) -> (r: usize)
    requires
        i <= b@.len(),
    ensures
        r == closing_len(b@, i as int, q),
{
    if byte_after(b, i, 3) == q {
        if byte_after(b, i, 4) == q {
            5
        } else {
            4
        }
    } else {
        3
    }
}

/// Whether the text is shallow enough for the parser's recursion.
pub fn is_shallow_enough(text: &str) -> (r: bool)
    ensures
        r == shallow_enough(text),
{
    nesting_depth_of(text) <= MAX_NESTING_DEPTH
}

/// What a document that applying `opts` to the manifest of `text` gives holds.
pub open spec fn optimized_from(opts: SizeOpts, text: Seq<char>, doc: Document) -> bool {
    &&& doc_release_opt_level(doc) == Some(opts.opt_level@)
    &&& doc_release_lto(doc) == Some(opts.lto)
    &&& doc_release_codegen_units(doc) == Some(opts.codegen_units)
    &&& opts.enable_fluent_bundle_patch ==> doc_release_overrides(doc) == map![
        FLUENT_BUNDLE@ => Some(FLUENT_BUNDLE_OPT_LEVEL)]
    &&& opts.wee_alloc ==> doc_dependencies(doc) == text_dependencies(text).insert(
        WEE_ALLOC@,
        Some(WEE_ALLOC_VERSION@),
    )
    &&& !opts.wee_alloc ==> doc_dependencies(doc) == text_dependencies(text)
    &&& doc_lib_crate_types(doc) == seq![CDYLIB@, RLIB@]
    &&& doc_rest(doc) == doc_rest(parsed_document(text))
    &&& doc_release(parsed_document(text)) matches Some(p) ==> doc_release(doc) matches Some(q)
        && profile_rest(q) == profile_rest(p)
    &&& !opts.enable_fluent_bundle_patch ==> (doc_release(parsed_document(text)) matches Some(p)
        ==> doc_release(doc) matches Some(q) && profile_override_values(q)
        == profile_override_values(p))
    &&& doc_release(parsed_document(text)) is None ==> (doc_release(doc) matches Some(q)
        && exists|b: cargo_toml::Profile|
        #[trigger] profile_is_blank(b) && profile_rest(q) == profile_rest(b))
    &&& doc_lib(parsed_document(text)) is None ==> (doc_lib(doc) matches Some(q)
        && exists|d: cargo_toml::Product|
        #[trigger] product_is_default(d) && product_rest(q) == product_rest(d))
    &&& doc_lib(parsed_document(text)) matches Some(p) ==> doc_lib(doc) matches Some(q)
        && product_rest(q) == product_rest(p)
    &&& forall|k: Seq<char>|
        (k != WEE_ALLOC@ || !opts.wee_alloc) ==> (#[trigger] doc_dependency_table(doc).contains_key(k)
            <==> doc_dependency_table(parsed_document(text)).contains_key(k))
    &&& forall|k: Seq<char>|
        (k != WEE_ALLOC@ || !opts.wee_alloc) && #[trigger] doc_dependency_table(doc).contains_key(k)
            ==> doc_dependency_table(doc)[k] == doc_dependency_table(parsed_document(text))[k]
}

/// Reads a manifest and applies `opts` to it: the document that is written out. Its
/// release profile has the options' level, LTO setting and codegen units, and with the
/// patch on, an override table that builds only `fluent-bundle`, at level 2. Its
/// dependencies are those of the text, with `wee_alloc` at its fixed version when the
/// allocator is on. Its library target is built as `cdylib` and `rlib`. Everything else
/// passes through as the text had it: the other sections, the other settings of the
/// release profile and of the library target, every other dependency, and with the patch
/// off the override table. A missing profile is made blank and a missing library target
/// is made with Cargo's defaults.
pub fn optimized_document(opts: &SizeOpts, text: &str) -> (r: Result<Document, SizeOptsError>)
    ensures
        (shallow_enough(text) && manifest_parses(text@)) <==> r is Ok,
        r is Err ==> r matches Err(SizeOptsError::GetManifestFailed { .. }),
        r matches Ok(doc) ==> optimized_from(*opts, text@, doc),
{
    if !is_shallow_enough(text) {
        return Err(SizeOptsError::GetManifestFailed { source: too_deep_error() });
    }
    let parsed = match parse_document(text) {
        Ok(d) => d,
        Err(e) => return Err(SizeOptsError::GetManifestFailed { source: e }),
    };
    let manifest = BuildManifest::from_document(parsed);
    let ghost m0 = manifest;
    let m = manifest.apply(opts);
    let doc = m.into_document();
    proof {
        let table = doc_dependency_table(doc);
        let source = doc_dependency_table(parsed);
        let before = entries_map(m0.dependencies@);
        let after = entries_map(m.dependencies@);
        assert forall|k: Seq<char>| (k != WEE_ALLOC@ || !opts.wee_alloc) implies (
        #[trigger] table.contains_key(k) <==> source.contains_key(k)) && (table.contains_key(k)
            ==> table[k] == source[k]) by {
            if opts.wee_alloc {
                assert(after.remove(WEE_ALLOC@).contains_key(k) == after.contains_key(k));
                assert(before.remove(WEE_ALLOC@).contains_key(k) == before.contains_key(k));
                if after.contains_key(k) {
                    assert(after.remove(WEE_ALLOC@)[k] == after[k]);
                    assert(before.remove(WEE_ALLOC@)[k] == before[k]);
                }
            }
            assert(before.contains_key(k) == source.contains_key(k));
            if table.contains_key(k) {
                assert(written_as(table[k], after[k]));
                assert(before[k] == DependencyDecl::Kept(source[k]));
            }
        }
        if doc_lib(parsed) is None {
            let d = m.lib->0.other;
            assert(product_is_default(d) && product_rest(doc_lib(doc)->0) == product_rest(d));
        }
        if !opts.enable_fluent_bundle_patch {
            if let Some(p) = doc_release(parsed) {
                let q = doc_release(doc)->0;
                let kept = entries_map(m.release->0.package@);
                assert(m.release->0.package@ == m0.release->0.package@);
                assert(profile_override_values(q) =~= profile_override_values(p)) by {
                    assert forall|k: Seq<char>| #[trigger] profile_override_values(q).contains_key(k)
                        implies profile_override_values(q)[k] == profile_override_values(p)[k] by {
                        assert(override_written_as(profile_override_values(q)[k], kept[k]));
                    }
                }
            }
        }
    }
    proof {
        let p = m.release->0;
        let package = p.package@;
        if opts.enable_fluent_bundle_patch {
            assert(package.drop_last() =~= Seq::<(String, PackageOverride)>::empty());
            reveal_with_fuel(keyed, 2);
            assert(keyed(package, |o: PackageOverride| override_level(o)) =~= map![
                FLUENT_BUNDLE@ => Some(FLUENT_BUNDLE_OPT_LEVEL)]);
        }
        let l = m.lib->0;
        assert(l.crate_type@.map_values(|s: String| s@) =~= seq![CDYLIB@, RLIB@]);
    }
    Ok(doc)
}

/// Reads a manifest, applies `opts` to it and writes it out again: the text of
/// `optimized_document`.
pub fn optimize_manifest(opts: &SizeOpts, text: &str) -> (r: Result<String, SizeOptsError>)
    ensures
        (shallow_enough(text) && manifest_parses(text@)) <==> !(r matches Err(
            SizeOptsError::GetManifestFailed { .. },
        )),
        r is Err ==> r matches Err(SizeOptsError::GetManifestFailed { .. }) || r matches Err(
            SizeOptsError::WriteManifestFailed { .. },
        ),
        r is Ok ==> exists|d: Document| #[trigger] renders_as(d, r->Ok_0@) && optimized_from(
            *opts,
            text@,
            d,
        ),
{
    let doc = match optimized_document(opts, text) {
        Ok(doc) => doc,
        Err(e) => return Err(e),
    };
    match render_document(&doc) {
        Ok(s) => {
            let r: Result<String, SizeOptsError> = Ok(s);
            assert(renders_as(doc, r->Ok_0@) && optimized_from(*opts, text@, doc));
            r
        },
        Err(e) => Err(SizeOptsError::WriteManifestFailed { source: e }),
    }
}

/// The entry point with the alternative allocator made the global one: the allocator
/// definition, a newline, and the original text unchanged.
pub fn with_wee_alloc(source: &str) -> (r: String)
    ensures
        r@ == WEE_ALLOC_DEF@ + seq!['\n'] + source@,
{
    let mut r = String::from_str(WEE_ALLOC_DEF);
    r.append("\n");
    r.append(source);
    proof {
        reveal_strlit("\n");
    }
    assert(r@ =~= WEE_ALLOC_DEF@ + seq!['\n'] + source@);
    r
}

/// What the entry point becomes under `opts`: prefixed as `with_wee_alloc` does when the
/// allocator is on, and `None`, left as it is, otherwise.
pub fn optimize_entry_point(opts: &SizeOpts, source: &str) -> (r: Option<String>)
    ensures
        opts.wee_alloc <==> r is Some,
        r matches Some(s) ==> s@ == WEE_ALLOC_DEF@ + seq!['\n'] + source@,
{
    if opts.wee_alloc {
        Some(with_wee_alloc(source))
    } else {
        None
    }
}

} // verus!
