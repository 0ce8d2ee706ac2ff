//! The calls into `cargo_toml` and `toml` that the optimizer makes, with what this library
//! relies on of each.
use crate::manifest::{DependencyDecl, Lto, OptLevel, PackageOverride, OPT_LEVEL_KEY};
use vstd::prelude::*;
use vstd::string::*;

verus! {

#[verifier::external_type_specification]
#[verifier::external_body]
#[verifier::reject_recursive_types(Metadata)]
pub struct ExManifest<Metadata>(cargo_toml::Manifest<Metadata>);

#[verifier::external_type_specification]
#[verifier::external_body]
pub struct ExProfile(cargo_toml::Profile);

#[verifier::external_type_specification]
#[verifier::external_body]
pub struct ExProduct(cargo_toml::Product);

#[verifier::external_type_specification]
#[verifier::external_body]
pub struct ExDependency(cargo_toml::Dependency);

#[verifier::external_type_specification]
#[verifier::external_body]
pub struct ExLtoSetting(cargo_toml::LtoSetting);

#[verifier::external_type_specification]
#[verifier::external_body]
pub struct ExCargoError(cargo_toml::Error);

#[verifier::external_type_specification]
#[verifier::external_body]
pub struct ExValue(toml::Value);

#[verifier::external_type_specification]
#[verifier::external_body]
pub struct ExIoError(std::io::Error);

/// A manifest document as `cargo_toml` holds it.
pub type Document = cargo_toml::Manifest<toml::Value>;

/// Whether `cargo_toml` reads the text as a manifest.
pub uninterp spec fn manifest_parses(text: Seq<char>) -> bool;

/// The dependency table of the manifest that `cargo_toml` reads from the text: each name
/// with its version where the dependency is given by a version alone, and `None` where
/// it is given in another form.
pub uninterp spec fn text_dependencies(text: Seq<char>) -> Map<Seq<char>, Option<Seq<char>>>;

/// Whether `text` is what `toml` writes for the document. A relation, not a function: the
/// document's custom profiles sit in a `HashMap`, whose order is the process's own.
pub uninterp spec fn renders_as(doc: Document, text: Seq<char>) -> bool;

/// The document that `cargo_toml` reads from the text.
pub uninterp spec fn parsed_document(text: Seq<char>) -> Document;

/// The document with its release profile, its dependency table and its library target
/// taken out: every other section.
pub uninterp spec fn doc_rest(doc: Document) -> Document;

/// The release profile of a document.
pub uninterp spec fn doc_release(doc: Document) -> Option<cargo_toml::Profile>;

/// The library target of a document.
pub uninterp spec fn doc_lib(doc: Document) -> Option<cargo_toml::Product>;

/// The dependency table of a document, each dependency as it stands.
pub uninterp spec fn doc_dependency_table(doc: Document) -> Map<Seq<char>, cargo_toml::Dependency>;

/// A profile with its optimization level, LTO setting, codegen units and override table
/// taken out: its other settings.
pub uninterp spec fn profile_rest(p: cargo_toml::Profile) -> cargo_toml::Profile;

/// The per-package override table of a profile, each value as it stands.
pub uninterp spec fn profile_override_values(p: cargo_toml::Profile) -> Map<Seq<char>, toml::Value>;

/// Whether a profile sets nothing at all.
pub uninterp spec fn profile_is_blank(p: cargo_toml::Profile) -> bool;

/// Whether a build target is `Product::default()`.
pub uninterp spec fn product_is_default(p: cargo_toml::Product) -> bool;

/// A build target with its output kinds taken out: its other settings.
pub uninterp spec fn product_rest(p: cargo_toml::Product) -> cargo_toml::Product;

/// The string that a TOML value is, if it is one.
pub uninterp spec fn value_text(v: toml::Value) -> Option<Seq<char>>;

/// The level `n` where a TOML value is the table `{ opt-level = n }`.
pub uninterp spec fn value_opt_level(v: toml::Value) -> Option<i64>;

/// `Some(true)` for full link-time optimization (written `true`), `Some(false)` for the
/// crate-local kind (written `false`), `None` for the other settings.
pub uninterp spec fn lto_flag(l: cargo_toml::LtoSetting) -> Option<bool>;

/// The version of a dependency given by its version alone.
pub uninterp spec fn dependency_version(d: cargo_toml::Dependency) -> Option<Seq<char>>;

/// The optimization level of a profile, where it is a string.
pub uninterp spec fn profile_opt_level(p: cargo_toml::Profile) -> Option<Seq<char>>;

/// The LTO setting of a profile, as `lto_flag` reads it.
pub uninterp spec fn profile_lto(p: cargo_toml::Profile) -> Option<bool>;

/// The codegen units of a profile.
pub uninterp spec fn profile_codegen_units(p: cargo_toml::Profile) -> Option<u16>;

/// The per-package override table of a profile, each entry read by `value_opt_level`.
pub uninterp spec fn profile_overrides(p: cargo_toml::Profile) -> Map<Seq<char>, Option<i64>>;

/// The output kinds of a build target.
pub uninterp spec fn product_crate_types(p: cargo_toml::Product) -> Seq<Seq<char>>;

/// The release profile's optimization level in a document, as `profile_opt_level` reads it.
pub uninterp spec fn doc_release_opt_level(doc: Document) -> Option<Seq<char>>;

/// The release profile's LTO setting in a document, as `profile_lto` reads it.
pub uninterp spec fn doc_release_lto(doc: Document) -> Option<bool>;

/// The release profile's codegen units in a document.
pub uninterp spec fn doc_release_codegen_units(doc: Document) -> Option<u16>;

/// The release profile's override table in a document, as `profile_overrides` reads it.
pub uninterp spec fn doc_release_overrides(doc: Document) -> Map<Seq<char>, Option<i64>>;

/// The dependency table of a document, each entry read by `dependency_version`.
pub uninterp spec fn doc_dependencies(doc: Document) -> Map<Seq<char>, Option<Seq<char>>>;

/// The library target's output kinds in a document.
pub uninterp spec fn doc_lib_crate_types(doc: Document) -> Seq<Seq<char>>;

/// The map that inserting the entries in order makes, each value read by `f`: a later
/// entry replaces an earlier one under the same key, as collecting into a `BTreeMap` does.
pub open spec fn keyed<V, W>(s: Seq<(String, V)>, f: spec_fn(V) -> W) -> Map<Seq<char>, W>
    decreases s.len(),
{
    if s.len() == 0 {
        Map::empty()
    } else {
        keyed(s.drop_last(), f).insert(s.last().0@, f(s.last().1))
    }
}

/// The map that the entries make, each value as it stands.
pub open spec fn entries_map<V>(s: Seq<(String, V)>) -> Map<Seq<char>, V> {
    keyed(s, |v: V| v)
}

/// What a dependency of the model stands for, as `dependency_version` reads it.
pub open spec fn decl_version(d: DependencyDecl) -> Option<Seq<char>> {
    match d {
        DependencyDecl::Simple(v) => Some(v@),
        DependencyDecl::Kept(d) => dependency_version(d),
    }
}

/// Where a scan of TOML text stands: outside strings and comments, inside a string of
/// one of the four kinds, or in a comment.
#[derive(Clone, Copy, PartialEq, Eq, Structural)]
pub enum Lexing {
    Plain,
    Basic,
    Literal,
    MultiBasic,
    MultiLiteral,
    Comment,
}

pub const QUOTE: u8 = 34;

pub const APOSTROPHE: u8 = 39;

pub const HASH: u8 = 35;

pub const BACKSLASH: u8 = 92;

pub const NEWLINE: u8 = 10;

pub const DOT: u8 = 46;

/// The byte at `i`, or 0 past the end.
pub open spec fn byte_at(b: Seq<u8>, i: int) -> u8 {
    if 0 <= i < b.len() {
        b[i]
    } else {
        0
    }
}

pub open spec fn opens(c: u8) -> bool {
    c == 91 || c == 123
}

pub open spec fn closes(c: u8) -> bool {
    c == 93 || c == 125
}

/// The length of a closing delimiter `q` three times at `i`, with the up to two further
/// `q` that the tokenizer takes into the string.
pub open spec fn closing_len(b: Seq<u8>, i: int, q: u8) -> int {
    if byte_at(b, i + 3) == q {
        if byte_at(b, i + 4) == q {
            5
        } else {
            4
        }
    } else {
        3
    }
}

/// Whether `q` stands three times from `i` on.
pub open spec fn triple_at(b: Seq<u8>, i: int, q: u8) -> bool {
    byte_at(b, i) == q && byte_at(b, i + 1) == q && byte_at(b, i + 2) == q
}

/// The deepest nesting that the parser of `toml` reaches on `b` from position `i`, scanned
/// the way its tokenizer splits strings and comments off: `depth` arrays and inline tables
/// are open, the current line has had `dots` dotted-key or header separators (each one
/// more level of recursion), and `peak` is the deepest point so far. Numbers with a dot
/// count too, which only makes the bound larger.
pub open spec fn nesting_peak(b: Seq<u8>, i: int, st: Lexing, depth: nat, dots: nat, peak: nat) -> nat
    decreases b.len() + 2 - i,
{
    if i < 0 || i >= b.len() {
        peak
    } else {
        let c = b[i];
        match st {
            Lexing::Plain => {
                if c == QUOTE {
                    if triple_at(b, i, QUOTE) {
                        nesting_peak(b, i + 3, Lexing::MultiBasic, depth, dots, peak)
                    } else if byte_at(b, i + 1) == QUOTE {
                        nesting_peak(b, i + 2, Lexing::Plain, depth, dots, peak)
                    } else {
                        nesting_peak(b, i + 1, Lexing::Basic, depth, dots, peak)
                    }
                } else if c == APOSTROPHE {
                    if triple_at(b, i, APOSTROPHE) {
                        nesting_peak(b, i + 3, Lexing::MultiLiteral, depth, dots, peak)
                    } else if byte_at(b, i + 1) == APOSTROPHE {
                        nesting_peak(b, i + 2, Lexing::Plain, depth, dots, peak)
                    } else {
                        nesting_peak(b, i + 1, Lexing::Literal, depth, dots, peak)
                    }
                } else if c == HASH {
                    nesting_peak(b, i + 1, Lexing::Comment, depth, dots, peak)
                } else if opens(c) || c == DOT {
                    let d: nat = if opens(c) { depth + 1 } else { depth };
                    let e: nat = if opens(c) { dots } else { dots + 1 };
                    let p: nat = if d + e > peak { d + e } else { peak };
                    nesting_peak(b, i + 1, Lexing::Plain, d, e, p)
                } else if closes(c) {
                    let d: nat = if depth > 0 { (depth - 1) as nat } else { 0 };
                    nesting_peak(b, i + 1, Lexing::Plain, d, dots, peak)
                } else if c == NEWLINE {
                    nesting_peak(b, i + 1, Lexing::Plain, depth, 0, peak)
                } else {
                    nesting_peak(b, i + 1, Lexing::Plain, depth, dots, peak)
                }
            },
            Lexing::Basic => {
                if c == BACKSLASH {
                    nesting_peak(b, i + 2, Lexing::Basic, depth, dots, peak)
                } else if c == QUOTE {
                    nesting_peak(b, i + 1, Lexing::Plain, depth, dots, peak)
                } else if c == NEWLINE {
                    nesting_peak(b, i + 1, Lexing::Plain, depth, 0, peak)
                } else {
                    nesting_peak(b, i + 1, Lexing::Basic, depth, dots, peak)
                }
            },
            Lexing::Literal => {
                if c == APOSTROPHE {
                    nesting_peak(b, i + 1, Lexing::Plain, depth, dots, peak)
                } else if c == NEWLINE {
                    nesting_peak(b, i + 1, Lexing::Plain, depth, 0, peak)
                } else {
                    nesting_peak(b, i + 1, Lexing::Literal, depth, dots, peak)
                }
            },
            Lexing::MultiBasic => {
                if c == BACKSLASH {
                    nesting_peak(b, i + 2, Lexing::MultiBasic, depth, dots, peak)
                } else if triple_at(b, i, QUOTE) {
                    nesting_peak(b, i + closing_len(b, i, QUOTE), Lexing::Plain, depth, dots, peak)
                } else {
                    nesting_peak(b, i + 1, Lexing::MultiBasic, depth, dots, peak)
                }
            },
            Lexing::MultiLiteral => {
                if triple_at(b, i, APOSTROPHE) {
                    nesting_peak(b, i + closing_len(b, i, APOSTROPHE), Lexing::Plain, depth, dots, peak)
                } else {
                    nesting_peak(b, i + 1, Lexing::MultiLiteral, depth, dots, peak)
                }
            },
            Lexing::Comment => {
                if c == NEWLINE {
                    nesting_peak(b, i + 1, Lexing::Plain, depth, 0, peak)
                } else {
                    nesting_peak(b, i + 1, Lexing::Comment, depth, dots, peak)
                }
            },
        }
    }
}

/// The deepest nesting that the parser reaches on the text.
pub open spec fn nesting_depth(text: &str) -> nat {
    nesting_peak(text.spec_bytes(), 0, Lexing::Plain, 0, 0, 0)
}

/// The deepest nesting that a text handed to the parser may reach.
pub const MAX_NESTING_DEPTH: usize = 512;

/// A text shallow enough for the parser's recursion.
pub open spec fn shallow_enough(text: &str) -> bool {
    nesting_depth(text) <= MAX_NESTING_DEPTH
}

/// Pairs whose first components are pairwise distinct.
pub open spec fn distinct_keys<V>(s: Seq<(String, V)>) -> bool {
    forall|i: int, j: int| 0 <= i < j < s.len() ==> s[i].0@ != s[j].0@
}

/// Relies on `cargo_toml::Manifest::from_str`: parsing depends on the text alone. The
/// parser recurses once per nested array or inline table and once per segment of a dotted
/// key or table header, without limit, so the depth of the text is bounded.
#[verifier::external_body]
pub(crate) fn parse_document(text: &str) -> (r: Result<Document, cargo_toml::Error>)
    requires
        shallow_enough(text),
    ensures
        r is Ok <==> manifest_parses(text@),
        r matches Ok(d) ==> d == parsed_document(text@) && doc_dependencies(d)
            == text_dependencies(text@),
{
    cargo_toml::Manifest::from_str(text)
}

/// Relies on `toml::to_string`; its error is handed on as an I/O error of kind `Other`.
#[verifier::external_body]
pub(crate) fn render_document(doc: &Document) -> (r: Result<String, std::io::Error>)
    ensures
        r matches Ok(s) ==> renders_as(*doc, s@),
{
    toml::to_string(doc).map_err(|e| std::io::Error::new(std::io::ErrorKind::Other, e))
}

/// Relies on the public fields of `cargo_toml::Manifest`: moves out the release profile,
/// the dependency table (a `BTreeMap`, so its keys are distinct) and the library target.
#[verifier::external_body]
pub(crate) fn split_document(doc: Document) -> (r: (
    Document,
    Option<cargo_toml::Profile>,
    Vec<(String, DependencyDecl)>,
    Option<cargo_toml::Product>,
))
    ensures
        distinct_keys(r.2@),
        keyed(r.2@, |d: DependencyDecl| decl_version(d)) == doc_dependencies(doc),
        entries_map(r.2@) == doc_dependency_table(doc).map_values(
            |d: cargo_toml::Dependency| DependencyDecl::Kept(d),
        ),
        doc_rest(r.0) == doc_rest(doc),
        r.1 == doc_release(doc),
        r.3 == doc_lib(doc),
{
    let mut doc = doc;
    let release = doc.profile.release.take();
    let deps = std::mem::take(&mut doc.dependencies);
    let dependencies = deps.into_iter().map(|(k, d)| (k, DependencyDecl::Kept(d))).collect();
    let lib = doc.lib.take();
    (doc, release, dependencies, lib)
}

/// Relies on the public fields of `cargo_toml::Manifest`: puts back what `split_document`
/// moved out.
#[verifier::external_body]
pub(crate) fn join_document(
    doc: Document,
    release: Option<cargo_toml::Profile>,
    dependencies: Vec<(String, cargo_toml::Dependency)>,
    lib: Option<cargo_toml::Product>,
) -> (r: Document)
    ensures
        release matches Some(p) ==> {
            &&& doc_release_opt_level(r) == profile_opt_level(p)
            &&& doc_release_lto(r) == profile_lto(p)
            &&& doc_release_codegen_units(r) == profile_codegen_units(p)
            &&& doc_release_overrides(r) == profile_overrides(p)
        },
        doc_dependencies(r) == keyed(dependencies@, |d: cargo_toml::Dependency| dependency_version(d)),
        lib matches Some(p) ==> doc_lib_crate_types(r) == product_crate_types(p),
        doc_rest(r) == doc_rest(doc),
        doc_release(r) == release,
        doc_lib(r) == lib,
        doc_dependency_table(r) == entries_map(dependencies@),
{
    let mut doc = doc;
    doc.profile.release = release;
    doc.dependencies = dependencies.into_iter().collect();
    doc.lib = lib;
    doc
}

/// Relies on the public fields of `cargo_toml::Profile`: moves out the optimization level,
/// the LTO setting, the codegen units and the per-package overrides (a `BTreeMap`, so
/// their keys are distinct).
#[verifier::external_body]
pub(crate) fn split_profile(p: cargo_toml::Profile) -> (r: (
    cargo_toml::Profile,
    Option<OptLevel>,
    Option<Lto>,
    Option<u16>,
    Vec<(String, PackageOverride)>,
))
    ensures
        distinct_keys(r.4@),
        profile_rest(r.0) == profile_rest(p),
        entries_map(r.4@) == profile_override_values(p).map_values(
            |v: toml::Value| PackageOverride::Kept(v),
        ),
{
    let mut p = p;
    let opt_level = p.opt_level.take().map(OptLevel::Kept);
    let lto = p.lto.take().map(Lto::Kept);
    let codegen_units = p.codegen_units.take();
    let table = std::mem::take(&mut p.package);
    let package = table.into_iter().map(|(k, v)| (k, PackageOverride::Kept(v))).collect();
    (p, opt_level, lto, codegen_units, package)
}

/// Relies on the public fields of `cargo_toml::Profile`: puts back what `split_profile`
/// moved out.
#[verifier::external_body]
pub(crate) fn join_profile(
    p: cargo_toml::Profile,
    opt_level: Option<toml::Value>,
    lto: Option<cargo_toml::LtoSetting>,
    codegen_units: Option<u16>,
    package: Vec<(String, toml::Value)>,
) -> (r: cargo_toml::Profile)
    ensures
        profile_opt_level(r) == (match opt_level {
            Some(v) => value_text(v),
            None => None,
        }),
        profile_lto(r) == (match lto {
            Some(l) => lto_flag(l),
            None => None,
        }),
        profile_codegen_units(r) == codegen_units,
        profile_overrides(r) == keyed(package@, |v: toml::Value| value_opt_level(v)),
        profile_rest(r) == profile_rest(p),
        profile_override_values(r) == entries_map(package@),
{
    let mut p = p;
    p.opt_level = opt_level;
    p.lto = lto;
    p.codegen_units = codegen_units;
    p.package = package.into_iter().collect();
    p
}

/// Relies on `cargo_toml::Profile` having only optional fields and a package table: a
/// profile that sets nothing (the type has no `Default`).
#[verifier::external_body]
pub(crate) fn blank_profile() -> (r: cargo_toml::Profile)
    ensures
        profile_is_blank(r),
{
    cargo_toml::Profile {
        opt_level: None,
        debug: None,
        split_debuginfo: None,
        rpath: None,
        lto: None,
        debug_assertions: None,
        codegen_units: None,
        panic: None,
        incremental: None,
        overflow_checks: None,
        strip: None,
        package: std::collections::BTreeMap::new(),
        build_override: None,
    }
}

/// Relies on the public field `crate_type` of `cargo_toml::Product`: moves it out.
#[verifier::external_body]
pub(crate) fn split_product(p: cargo_toml::Product) -> (r: (cargo_toml::Product, Vec<String>))
    ensures
        product_rest(r.0) == product_rest(p),
{
    let mut p = p;
    let crate_type = std::mem::take(&mut p.crate_type);
    (p, crate_type)
}

/// Relies on the public field `crate_type` of `cargo_toml::Product`: puts it back.
#[verifier::external_body]
pub(crate) fn join_product(p: cargo_toml::Product, crate_type: Vec<String>) -> (r:
    cargo_toml::Product)
    ensures
        product_crate_types(r) == crate_type@.map_values(|s: String| s@),
        product_rest(r) == product_rest(p),
{
    let mut p = p;
    p.crate_type = crate_type;
    p
}

/// Relies on `cargo_toml::Product::default`: a library target with Cargo's defaults.
#[verifier::external_body]
pub(crate) fn default_product() -> (r: cargo_toml::Product)
    ensures
        product_crate_types(r) == Seq::<Seq<char>>::empty(),
        product_is_default(r),
{
    cargo_toml::Product::default()
}

/// Relies on `toml::Value::String`.
#[verifier::external_body]
pub(crate) fn string_value(s: String) -> (r: toml::Value)
    ensures
        value_text(r) == Some(s@),
{
    toml::Value::String(s)
}

/// Relies on `toml::Value::Table` and `toml::Value::Integer`: the table `{ key = n }`.
#[verifier::external_body]
pub(crate) fn integer_table(key: String, n: i64) -> (r: toml::Value)
    ensures
        key@ == OPT_LEVEL_KEY@ ==> value_opt_level(r) == Some(n),
{
    let mut table = toml::value::Map::new();
    table.insert(key, toml::Value::Integer(n));
    toml::Value::Table(table)
}

/// Relies on `cargo_toml::LtoSetting::Fat`, which `cargo_toml` writes as `lto = true`.
#[verifier::external_body]
pub(crate) fn lto_fat() -> (r: cargo_toml::LtoSetting)
    ensures
        lto_flag(r) == Some(true),
{
    cargo_toml::LtoSetting::Fat
}

/// Relies on `cargo_toml::Error::Other`: the error for a text too deep to parse.
#[verifier::external_body]
pub(crate) fn too_deep_error() -> cargo_toml::Error {
    cargo_toml::Error::Other("manifest nests arrays, tables or dotted keys too deeply")
}

/// Relies on `cargo_toml::LtoSetting::ThinLocal`, which `cargo_toml` writes as `lto = false`.
#[verifier::external_body]
pub(crate) fn lto_thin_local() -> (r: cargo_toml::LtoSetting)
    ensures
        lto_flag(r) == Some(false),
{
    cargo_toml::LtoSetting::ThinLocal
}

/// Relies on `cargo_toml::Dependency::Simple`: a dependency given by its version alone.
#[verifier::external_body]
pub(crate) fn simple_dependency(version: String) -> (r: cargo_toml::Dependency)
    ensures
        dependency_version(r) == Some(version@),
{
    cargo_toml::Dependency::Simple(version)
}

} // verus!
